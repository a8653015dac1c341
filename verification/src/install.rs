//! Preparing the macOS guest: OSX-KVM, the virtual disk, the installer VM,
//! and importing the installed disk into reims-vGPU as a rail.
use vstd::prelude::*;
use crate::catalog::{rail_for, spec_rail_for};
use crate::command::{
    describe_code, code_debug, make_job, push_step, step, step_view, step_views, Action,
    ActionView, CommandSpec, CommandView, Job, JobView, Output, OutputView, Poll, Progress, Report,
    Step, StepView, Task, report_fits, spec_after_report,
};
use crate::paths::{
    join_path, macos_download_path, osx_kvm_path, path_join, spec_macos_download_path,
    spec_osx_kvm_path, Disk,
};
use crate::text::{cat, cat3, decimal, decimal_string, owned};

verus! {

// ---------------------------------------------------------------------
// The virtual disk
// ---------------------------------------------------------------------

/// The macOS guest's virtual disk: its size, status, and whether it exists.
pub struct VirtualDisk {
    pub size_gb: u64,
    pub status: String,
    pub created: bool,
}

/// The disk image inside OSX-KVM.
pub open spec fn disk_image(root: Seq<char>) -> Seq<char> {
    path_join(spec_osx_kvm_path(root), "mac_hdd_ng.img"@)
}

/// The work that creates the virtual disk: make OSX-KVM's directory, then,
/// unless the image is there already, create it with `qemu-img`.
pub open spec fn disk_job(root: Seq<char>, size_gb: u64, exists: bool) -> JobView {
    let mkdir = step_view(
        ActionView::CreateDirAll(spec_osx_kvm_path(root)),
        "Could not create OSX-KVM directory: "@,
        ""@,
    );
    if exists {
        JobView {
            steps: seq![mkdir],
            spawn: None,
            on_done: Some("Virtual disk already exists: "@ + disk_image(root)),
            on_spawn_error: ""@,
        }
    } else {
        JobView {
            steps: seq![
                mkdir,
                step_view(
                    ActionView::Run(
                        CommandView {
                            program: "qemu-img"@,
                            args: seq![
                                "create"@,
                                "-f"@,
                                "qcow2"@,
                                disk_image(root),
                                decimal(size_gb as nat) + "G"@,
                            ],
                            cwd: None,
                            env: Seq::empty(),
                            output: OutputView::Inherit,
                        },
                    ),
                    "Could not run qemu-img: "@,
                    "Failed to create virtual disk: "@,
                ),
            ],
            spawn: None,
            on_done: Some("Virtual disk created: "@ + decimal(size_gb as nat) + " GB"@),
            on_spawn_error: ""@,
        }
    }
}

impl VirtualDisk {
    pub fn new() -> (d: VirtualDisk)
        ensures
            d.size_gb == 64,
            d.status@ == "Not created"@,
            !d.created,
    {
        VirtualDisk { size_gb: 64, status: owned("Not created"), created: false }
    }

    /// Decides how to create the virtual disk. `home_set` says whether
    /// `HOME` is set; `disk` must tell whether the image exists.
    pub fn create_virtual_disk(&mut self, home_set: bool, root: &str, disk: &Disk) -> (job: Option<Job>)
        ensures
            final(self).size_gb == old(self).size_gb,
            final(self).created == old(self).created,
            old(self).created ==> job is None && final(self).status == old(self).status,
            !old(self).created && !home_set ==> job is None
                && final(self).status@ == "Could not determine home directory."@,
            !old(self).created && home_set ==> final(self).status == old(self).status
                && (job matches Some(j) && j@ == disk_job(root@, old(self).size_gb, disk.spec_has(disk_image(root@)))),
    {
        if self.created {
            return None;
        }
        if !home_set {
            self.status = owned("Could not determine home directory.");
            return None;
        }
        let osx = osx_kvm_path(root);
        let image = join_path(osx.as_str(), "mac_hdd_ng.img");
        let mut steps: Vec<Step> = Vec::new();
        push_step(&mut steps, step(Action::CreateDirAll(osx.clone()), "Could not create OSX-KVM directory: ", ""));
        if disk.has(image.as_str()) {
            let done = cat("Virtual disk already exists: ", image.as_str());
            let j = make_job(steps, None, Some(done), "");
            assert(j@.steps =~= disk_job(root@, self.size_gb, true).steps);
            return Some(j);
        }
        let n = decimal_string(self.size_gb);
        let size = cat(n.as_str(), "G");
        let mut c = CommandSpec::new("qemu-img");
        c.arg("create");
        c.arg("-f");
        c.arg("qcow2");
        c.arg(image.as_str());
        c.arg(size.as_str());
        assert(c@.args =~= seq!["create"@, "-f"@, "qcow2"@, image@, size@]);
        push_step(&mut steps, step(Action::Run(c), "Could not run qemu-img: ", "Failed to create virtual disk: "));
        let done = cat3("Virtual disk created: ", n.as_str(), " GB");
        let j = make_job(steps, None, Some(done), "");
        assert(j@.steps =~= disk_job(root@, self.size_gb, false).steps);
        Some(j)
    }

    /// Records what became of the job: the disk exists once every step
    /// succeeded.
    pub fn disk_reported(&mut self, job: &Job, report: Report)
        requires
            report_fits(job@, report),
        ensures
            final(self).status@ == spec_after_report(old(self).status@, false, job@, report).0,
            final(self).created == (old(self).created || report is Finished),
            final(self).size_gb == old(self).size_gb,
    {
        let finished = match report {
            Report::Finished => true,
            _ => false,
        };
        let (s, _) = crate::command::resolve_report(&self.status, false, job, &report);
        self.status = s;
        if finished {
            self.created = true;
        }
    }
}

// ---------------------------------------------------------------------
// The installer VM
// ---------------------------------------------------------------------

/// The files the installer needs, under the download root.
pub open spec fn recovery_dmg(root: Seq<char>, version: Seq<char>) -> Seq<char> {
    path_join(spec_macos_download_path(root, version), "BaseSystem.dmg"@)
}

pub open spec fn osx_kvm_file(root: Seq<char>, name: Seq<char>) -> Seq<char> {
    path_join(spec_osx_kvm_path(root), name)
}

/// Why the installer cannot be started, if it cannot: the first missing
/// piece, in the order OSX-KVM, recovery image, boot script, disk image.
pub open spec fn installer_refusal(root: Seq<char>, version: Seq<char>, disk: Disk) -> Option<Seq<char>> {
    if !disk.spec_has(spec_osx_kvm_path(root)) {
        Some("OSX-KVM is not installed. Download it first."@)
    } else if !disk.spec_has(recovery_dmg(root, version)) {
        Some("BaseSystem.dmg has not been downloaded for "@ + version + "."@)
    } else if !disk.spec_has(osx_kvm_file(root, "OpenCore-Boot.sh"@)) {
        Some("OpenCore-Boot.sh not found: "@ + osx_kvm_file(root, "OpenCore-Boot.sh"@))
    } else if !disk.spec_has(disk_image(root)) {
        Some("mac_hdd_ng.img does not exist. Create the macOS disk first."@)
    } else {
        None
    }
}

/// The work that starts the installer: copy the recovery image into
/// OSX-KVM, remove an old converted image, convert it with `dmg2img`,
/// then boot OpenCore.
pub open spec fn installer_job(root: Seq<char>, version: Seq<char>, img_exists: bool) -> JobView {
    let dmg = osx_kvm_file(root, "BaseSystem.dmg"@);
    let img = osx_kvm_file(root, "BaseSystem.img"@);
    let copy = step_view(
        ActionView::Copy(recovery_dmg(root, version), dmg),
        "Could not copy BaseSystem.dmg: "@,
        ""@,
    );
    let remove = step_view(ActionView::RemoveFile(img), "Could not remove old BaseSystem.img: "@, ""@);
    let convert = step_view(
        ActionView::Run(
            CommandView {
                program: "dmg2img"@,
                args: seq![dmg, img],
                cwd: None,
                env: Seq::empty(),
                output: OutputView::Inherit,
            },
        ),
        "Could not run dmg2img: "@,
        "dmg2img failed: "@,
    );
    JobView {
        steps: if img_exists {
            seq![copy, remove, convert]
        } else {
            seq![copy, convert]
        },
        spawn: Some(
            CommandView {
                program: "bash"@,
                args: seq![osx_kvm_file(root, "OpenCore-Boot.sh"@)],
                cwd: Some(spec_osx_kvm_path(root)),
                env: Seq::empty(),
                output: OutputView::Inherit,
            },
        ),
        on_done: Some("macOS installer is running."@),
        on_spawn_error: "Could not start OSX-KVM: "@,
    }
}

/// Decides how to start the macOS installer for `version`. `home_set`
/// says whether `HOME` is set; `disk` must tell whether OSX-KVM, the
/// recovery image, the boot script, the disk image and an old converted
/// image exist. A missing disk image also marks the disk as not created.
pub fn run_macos_installer(
    installer: &mut Task,
    disk_created: &mut bool,
    home_set: bool,
    root: &str,
    version: &str,
    disk: &Disk,
) -> (job: Option<Job>)
    ensures
        final(installer).running == old(installer).running,
        old(installer).running ==> job is None && *final(installer) == *old(installer)
            && *final(disk_created) == *old(disk_created),
        !old(installer).running && !home_set ==> job is None && *final(disk_created) == *old(disk_created)
            && final(installer).status@ == "Could not determine home directory."@,
        !old(installer).running && home_set ==> match installer_refusal(root@, version@, *disk) {
            Some(s) => job is None && final(installer).status@ == s && *final(disk_created) == (
            *old(disk_created) && !(disk.spec_has(spec_osx_kvm_path(root@)) && disk.spec_has(
                recovery_dmg(root@, version@),
            ) && disk.spec_has(osx_kvm_file(root@, "OpenCore-Boot.sh"@)))),
            None => final(installer).status == old(installer).status && *final(disk_created)
                == *old(disk_created) && (job matches Some(j) && j@ == installer_job(
                root@,
                version@,
                disk.spec_has(osx_kvm_file(root@, "BaseSystem.img"@)),
            )),
        },
{
    if installer.running {
        return None;
    }
    if !home_set {
        installer.status = owned("Could not determine home directory.");
        return None;
    }
    let osx = osx_kvm_path(root);
    let rec = macos_download_path(root, version);
    let downloaded = join_path(rec.as_str(), "BaseSystem.dmg");
    let dmg = join_path(osx.as_str(), "BaseSystem.dmg");
    let img = join_path(osx.as_str(), "BaseSystem.img");
    let hdd = join_path(osx.as_str(), "mac_hdd_ng.img");
    let boot = join_path(osx.as_str(), "OpenCore-Boot.sh");
    if !disk.has(osx.as_str()) {
        installer.status = owned("OSX-KVM is not installed. Download it first.");
        return None;
    }
    if !disk.has(downloaded.as_str()) {
        installer.status = cat3("BaseSystem.dmg has not been downloaded for ", version, ".");
        return None;
    }
    if !disk.has(boot.as_str()) {
        installer.status = cat("OpenCore-Boot.sh not found: ", boot.as_str());
        return None;
    }
    if !disk.has(hdd.as_str()) {
        installer.status = owned("mac_hdd_ng.img does not exist. Create the macOS disk first.");
        *disk_created = false;
        return None;
    }
    let img_exists = disk.has(img.as_str());
    let mut steps: Vec<Step> = Vec::new();
    push_step(&mut steps, step(Action::Copy(downloaded.clone(), dmg.clone()), "Could not copy BaseSystem.dmg: ", ""));
    if img_exists {
        push_step(&mut steps, step(Action::RemoveFile(img.clone()), "Could not remove old BaseSystem.img: ", ""));
    }
    let mut conv = CommandSpec::new("dmg2img");
    conv.arg(dmg.as_str());
    conv.arg(img.as_str());
    assert(conv@.args =~= seq![dmg@, img@]);
    push_step(&mut steps, step(Action::Run(conv), "Could not run dmg2img: ", "dmg2img failed: "));
    let mut c = CommandSpec::new("bash");
    c.arg(boot.as_str());
    c.current_dir(osx.as_str());
    assert(c@.args =~= seq![boot@]);
    let j = make_job(steps, Some(c), Some(owned("macOS installer is running.")), "Could not start OSX-KVM: ");
    assert(j@.steps =~= installer_job(root@, version@, img_exists).steps);
    Some(j)
}

/// Looks at the running installer VM. Returns whether the window should be
/// drawn again soon.
pub fn update_installer(installer: &mut Task, poll: Poll) -> (repaint: bool)
    ensures
        !old(installer).running ==> !repaint && *final(installer) == *old(installer),
        old(installer).running ==> match poll {
            Poll::Running => repaint && *final(installer) == *old(installer),
            Poll::Exited { success, code, .. } => !repaint && !final(installer).running
                && final(installer).status@ == if success {
                "Installer VM closed successfully."@
            } else {
                "Installer VM exited with code "@ + code_debug(code) + "."@
            },
            Poll::Failed(e) => !repaint && !final(installer).running && final(installer).status@
                == "Failed to check installer VM: "@ + e@,
        },
{
    if !installer.running {
        return false;
    }
    match poll {
        Poll::Running => true,
        Poll::Exited { success, code, .. } => {
            if success {
                installer.status = owned("Installer VM closed successfully.");
            } else {
                let d = describe_code(code);
                installer.status = cat3("Installer VM exited with code ", d.as_str(), ".");
            }
            installer.running = false;
            false
        },
        Poll::Failed(e) => {
            installer.status = cat("Failed to check installer VM: ", e.as_str());
            installer.running = false;
            false
        },
    }
}

// ---------------------------------------------------------------------
// OSX-KVM
// ---------------------------------------------------------------------

/// Where OSX-KVM is cloned before it is moved into place.
pub open spec fn clone_path(root: Seq<char>) -> Seq<char> {
    path_join(root, "OSX-KVM-clone"@)
}

/// The work that starts downloading OSX-KVM: make the download root; then,
/// unless a checkout with OpenCore is there, remove an old clone and clone
/// the repository next to OSX-KVM. An incomplete OSX-KVM directory is left
/// in place, virtual disk and all, until the clone has finished (see
/// `osx_kvm_install_job`).
pub open spec fn osx_kvm_job(root: Seq<char>, disk: Disk) -> JobView {
    let osx = spec_osx_kvm_path(root);
    let mkdir = step_view(ActionView::CreateDirAll(root), "Could not create download directory: "@, ""@);
    if disk.spec_has(path_join(osx, ".git"@)) && disk.spec_has(path_join(osx, "OpenCore"@)) {
        JobView {
            steps: seq![mkdir],
            spawn: None,
            on_done: Some("OSX-KVM is already installed."@),
            on_spawn_error: ""@,
        }
    } else {
        JobView {
            steps: if disk.spec_has(clone_path(root)) {
                seq![
                    mkdir,
                    step_view(
                        ActionView::RemoveDirAll(clone_path(root)),
                        "Could not remove old OSX-KVM clone: "@,
                        ""@,
                    ),
                ]
            } else {
                seq![mkdir]
            },
            spawn: Some(
                CommandView {
                    program: "git"@,
                    args: seq![
                        "clone"@,
                        "--depth"@,
                        "1"@,
                        "--recursive"@,
                        "https://github.com/kholia/OSX-KVM.git"@,
                        clone_path(root),
                    ],
                    cwd: None,
                    env: Seq::empty(),
                    output: OutputView::Discard,
                },
            ),
            on_done: Some("Downloading OSX-KVM repository..."@),
            on_spawn_error: "Could not start git: "@,
        }
    }
}

/// Whether `p` is the path `dir` or lies inside the directory `dir`.
pub open spec fn within(p: Seq<char>, dir: Seq<char>) -> bool {
    ||| p == dir
    ||| (dir.len() < p.len() && p.take(dir.len() as int) == dir && (p[dir.len() as int] == '/' || (
    dir.len() > 0 && dir.last() == '/')))
}

/// Whether an action leaves the file `p` where it is and as it is: it
/// removes, moves, or writes neither `p` nor a directory holding it, and it
/// runs no program (whose effects are not known here).
pub open spec fn spares(a: ActionView, p: Seq<char>) -> bool {
    match a {
        ActionView::CreateDirAll(_) => true,
        ActionView::CreateLog(q) => !within(p, q),
        ActionView::Copy(_, to) => !within(p, to),
        ActionView::RemoveFile(q) => !within(p, q),
        ActionView::RemoveDirAll(q) => !within(p, q),
        ActionView::Rename(from, to) => !within(p, from) && !within(p, to),
        ActionView::MakeReadonly(q) => !within(p, q),
        ActionView::Symlink(_, link) => !within(p, link),
        ActionView::Run(_) => false,
    }
}

proof fn lemma_clone_spares_disk(root: Seq<char>)
    ensures
        !within(disk_image(root), clone_path(root)),
{
    reveal_strlit("OSX-KVM");
    reveal_strlit("OSX-KVM-clone");
    reveal_strlit("mac_hdd_ng.img");
    let pre = if root.len() == 0 || root.last() == '/' {
        root
    } else {
        root + seq!['/']
    };
    let osx = spec_osx_kvm_path(root);
    let clone = clone_path(root);
    let img = disk_image(root);
    assert(osx =~= pre + "OSX-KVM"@);
    assert(clone =~= pre + "OSX-KVM-clone"@);
    assert(osx.len() > 0 && osx.last() == 'M');
    assert(img =~= osx + seq!['/'] + "mac_hdd_ng.img"@);
    let k: int = pre.len() as int + 7;
    assert(img[k] == '/');
    assert(clone[k] == '-');
    if clone.len() < img.len() && img.take(clone.len() as int) == clone {
        assert(img.take(clone.len() as int)[k] == img[k]);
    }
}

/// Starting a download of OSX-KVM keeps the virtual disk: no step of the
/// job removes, moves or overwrites the disk image or a directory holding
/// it, and the clone goes to a directory that does not hold it.
pub proof fn lemma_osx_kvm_job_spares_disk(root: Seq<char>, disk: Disk)
    ensures
        forall|i: int|
            0 <= i < osx_kvm_job(root, disk).steps.len() ==> spares(
                #[trigger] osx_kvm_job(root, disk).steps[i].action,
                disk_image(root),
            ),
        osx_kvm_job(root, disk).spawn matches Some(c) ==> !within(disk_image(root), c.args.last()),
{
    lemma_clone_spares_disk(root);
}

/// Decides how to download OSX-KVM; `disk` must tell whether the checkout's
/// `.git` and `OpenCore`, and an old clone exist. No step of the job touches
/// the virtual disk.
pub fn download_osx_kvm(osx_kvm: &mut Task, root: &str, disk: &Disk) -> (job: Option<Job>)
    ensures
        *final(osx_kvm) == *old(osx_kvm),
        old(osx_kvm).running ==> job is None,
        !old(osx_kvm).running ==> (job matches Some(j) && j@ == osx_kvm_job(root@, *disk)),
        job matches Some(j) ==> forall|i: int|
            0 <= i < j@.steps.len() ==> spares(#[trigger] j@.steps[i].action, disk_image(root@)),
{
    proof {
        lemma_osx_kvm_job_spares_disk(root@, *disk);
    }
    if osx_kvm.running {
        return None;
    }
    let osx = osx_kvm_path(root);
    let git = join_path(osx.as_str(), ".git");
    let opencore = join_path(osx.as_str(), "OpenCore");
    let temp = join_path(root, "OSX-KVM-clone");
    let mut steps: Vec<Step> = Vec::new();
    push_step(&mut steps, step(Action::CreateDirAll(owned(root)), "Could not create download directory: ", ""));
    if disk.has(git.as_str()) && disk.has(opencore.as_str()) {
        let j = make_job(steps, None, Some(owned("OSX-KVM is already installed.")), "");
        assert(j@.steps =~= osx_kvm_job(root@, *disk).steps);
        return Some(j);
    }
    if disk.has(temp.as_str()) {
        push_step(&mut steps, step(Action::RemoveDirAll(temp.clone()), "Could not remove old OSX-KVM clone: ", ""));
    }
    let mut c = CommandSpec::new("git");
    c.arg("clone");
    c.arg("--depth");
    c.arg("1");
    c.arg("--recursive");
    c.arg("https://github.com/kholia/OSX-KVM.git");
    c.arg(temp.as_str());
    c.set_output(Output::Discard);
    assert(c@.args =~= seq!["clone"@, "--depth"@, "1"@, "--recursive"@, "https://github.com/kholia/OSX-KVM.git"@, temp@]);
    let j = make_job(steps, Some(c), Some(owned("Downloading OSX-KVM repository...")), "Could not start git: ");
    assert(j@.steps =~= osx_kvm_job(root@, *disk).steps);
    Some(j)
}

/// The work that moves a finished clone into place: keep the virtual disk
/// by moving it into the clone, remove the old directory, then move the
/// clone to OSX-KVM's place.
pub open spec fn osx_kvm_install_job(root: Seq<char>, disk: Disk) -> JobView {
    let osx = spec_osx_kvm_path(root);
    let temp = clone_path(root);
    let s0 = if disk.spec_has(disk_image(root)) {
        seq![
            step_view(
                ActionView::Rename(disk_image(root), path_join(temp, "mac_hdd_ng.img"@)),
                "Could not preserve macOS disk: "@,
                ""@,
            ),
        ]
    } else {
        Seq::empty()
    };
    let s1 = if disk.spec_has(osx) {
        s0.push(
            step_view(
                ActionView::RemoveDirAll(osx),
                "Could not replace incomplete OSX-KVM directory: "@,
                ""@,
            ),
        )
    } else {
        s0
    };
    JobView {
        steps: s1.push(
            step_view(ActionView::Rename(temp, osx), "Could not install OSX-KVM repository: "@, ""@),
        ),
        spawn: None,
        on_done: Some("OSX-KVM downloaded successfully."@),
        on_spawn_error: ""@,
    }
}

proof fn lemma_osx_spares_clone_disk(root: Seq<char>)
    ensures
        !within(path_join(clone_path(root), "mac_hdd_ng.img"@), spec_osx_kvm_path(root)),
{
    reveal_strlit("OSX-KVM");
    reveal_strlit("OSX-KVM-clone");
    reveal_strlit("mac_hdd_ng.img");
    let pre = if root.len() == 0 || root.last() == '/' {
        root
    } else {
        root + seq!['/']
    };
    let osx = spec_osx_kvm_path(root);
    let clone = clone_path(root);
    let kept = path_join(clone, "mac_hdd_ng.img"@);
    assert(osx =~= pre + "OSX-KVM"@);
    assert(clone =~= pre + "OSX-KVM-clone"@);
    assert(clone.len() > 0 && clone.last() == 'e');
    assert(kept =~= clone + seq!['/'] + "mac_hdd_ng.img"@);
    let k: int = pre.len() as int + 7;
    assert(kept[k] == '-');
    assert(osx.len() == k && osx.last() == 'M');
}

/// Finishing the download keeps the virtual disk: when the disk image
/// exists, the first step moves it into the clone, no step in between
/// touches it there, and the last step moves the clone, disk included, to
/// OSX-KVM's place, where the disk image is again `disk_image(root)`.
pub proof fn lemma_osx_kvm_install_keeps_disk(root: Seq<char>, disk: Disk)
    requires
        disk.spec_has(disk_image(root)),
    ensures
        ({
            let job = osx_kvm_install_job(root, disk);
            let kept = path_join(clone_path(root), "mac_hdd_ng.img"@);
            &&& job.steps.len() >= 2
            &&& job.steps[0].action == ActionView::Rename(disk_image(root), kept)
            &&& forall|i: int| 0 < i < job.steps.len() - 1 ==> spares(#[trigger] job.steps[i].action, kept)
            &&& job.steps.last().action == ActionView::Rename(clone_path(root), spec_osx_kvm_path(root))
            &&& path_join(spec_osx_kvm_path(root), "mac_hdd_ng.img"@) == disk_image(root)
        }),
{
    lemma_osx_spares_clone_disk(root);
}

/// Looks at the running clone of OSX-KVM. When it succeeded, `disk` must
/// tell whether the clone's `.git`, the virtual disk and the old directory
/// exist, and `home_set` whether `HOME` is set.
pub fn update_osx_kvm(osx_kvm: &mut Task, poll: Poll, home_set: bool, root: &str, disk: &Disk) -> (p: Progress)
    ensures
        !old(osx_kvm).running ==> !p.repaint && p.job is None && *final(osx_kvm) == *old(osx_kvm),
        old(osx_kvm).running ==> match poll {
            Poll::Running => p.repaint && p.job is None && *final(osx_kvm) == *old(osx_kvm),
            Poll::Exited { success, .. } => !p.repaint && !final(osx_kvm).running && if !success {
                p.job is None && final(osx_kvm).status@ == "OSX-KVM download failed."@
            } else if !home_set {
                p.job is None && final(osx_kvm).status@ == "Could not determine home directory."@
            } else if !disk.spec_has(path_join(clone_path(root@), ".git"@)) {
                p.job is None && final(osx_kvm).status@
                    == "OSX-KVM clone completed but repository files are missing."@
            } else {
                final(osx_kvm).status == old(osx_kvm).status && (p.job matches Some(j) && j@
                    == osx_kvm_install_job(root@, *disk))
            },
            Poll::Failed(e) => !p.repaint && p.job is None && !final(osx_kvm).running
                && final(osx_kvm).status@ == "Failed to check OSX-KVM process: "@ + e@,
        },
{
    if !osx_kvm.running {
        return Progress { repaint: false, job: None };
    }
    match poll {
        Poll::Running => Progress { repaint: true, job: None },
        Poll::Exited { success, .. } => {
            osx_kvm.running = false;
            if !success {
                osx_kvm.status = owned("OSX-KVM download failed.");
                return Progress { repaint: false, job: None };
            }
            if !home_set {
                osx_kvm.status = owned("Could not determine home directory.");
                return Progress { repaint: false, job: None };
            }
            let osx = osx_kvm_path(root);
            let temp = join_path(root, "OSX-KVM-clone");
            let git = join_path(temp.as_str(), ".git");
            if !disk.has(git.as_str()) {
                osx_kvm.status = owned("OSX-KVM clone completed but repository files are missing.");
                return Progress { repaint: false, job: None };
            }
            let image = join_path(osx.as_str(), "mac_hdd_ng.img");
            let mut steps: Vec<Step> = Vec::new();
            if disk.has(image.as_str()) {
                let kept = join_path(temp.as_str(), "mac_hdd_ng.img");
                push_step(&mut steps, step(Action::Rename(image.clone(), kept), "Could not preserve macOS disk: ", ""));
            }
            if disk.has(osx.as_str()) {
                push_step(&mut steps, step(Action::RemoveDirAll(osx.clone()), "Could not replace incomplete OSX-KVM directory: ", ""));
            }
            push_step(&mut steps, step(Action::Rename(temp.clone(), osx.clone()), "Could not install OSX-KVM repository: ", ""));
            let j = make_job(steps, None, Some(owned("OSX-KVM downloaded successfully.")), "");
            assert(j@.steps =~= osx_kvm_install_job(root@, *disk).steps);
            Progress { repaint: false, job: Some(j) }
        },
        Poll::Failed(e) => {
            osx_kvm.status = cat("Failed to check OSX-KVM process: ", e.as_str());
            osx_kvm.running = false;
            Progress { repaint: false, job: None }
        },
    }
}

// ---------------------------------------------------------------------
// Importing the guest into reims-vGPU
// ---------------------------------------------------------------------

/// The snapshot directories of a rail in a reims-vGPU checkout.
pub open spec fn snapshots_dir(repo: Seq<char>, rail: Seq<char>) -> Seq<char> {
    path_join(path_join(path_join(path_join(path_join(repo, "vm"@), "disks"@), "rails"@), rail), "snapshots"@)
}

pub open spec fn base_dir(repo: Seq<char>, rail: Seq<char>) -> Seq<char> {
    path_join(snapshots_dir(repo, rail), "base"@)
}

pub fn snapshots_dir_of(repo: &str, rail: &str) -> (r: String)
    ensures
        r@ == snapshots_dir(repo@, rail@),
{
    let a = join_path(repo, "vm");
    let b = join_path(a.as_str(), "disks");
    let c = join_path(b.as_str(), "rails");
    let d = join_path(c.as_str(), rail);
    join_path(d.as_str(), "snapshots")
}

/// OpenCore's disk inside OSX-KVM.
pub open spec fn opencore_image(root: Seq<char>) -> Seq<char> {
    path_join(path_join(spec_osx_kvm_path(root), "OpenCore"@), "OpenCore.qcow2"@)
}

/// Why the import cannot start, if it cannot: the first missing piece.
pub open spec fn import_refusal(root: Seq<char>, repo: Seq<char>, version: Seq<char>, disk: Disk) -> Option<Seq<char>> {
    if !disk.spec_has(repo) {
        Some("reims-vGPU repository not found: "@ + repo)
    } else if !disk.spec_has(disk_image(root)) {
        Some("mac_hdd_ng.img not found: "@ + disk_image(root))
    } else if !disk.spec_has(opencore_image(root)) {
        Some("OpenCore not found: "@ + opencore_image(root))
    } else if !disk.spec_has(osx_kvm_file(root, "OVMF_CODE_4M.fd"@)) {
        Some("OVMF code not found: "@ + osx_kvm_file(root, "OVMF_CODE_4M.fd"@))
    } else if !disk.spec_has(osx_kvm_file(root, "OVMF_VARS-1920x1080.fd"@)) {
        Some("OVMF vars not found: "@ + osx_kvm_file(root, "OVMF_VARS-1920x1080.fd"@))
    } else if spec_rail_for(version) is None {
        Some("Unknown macOS version."@)
    } else {
        None
    }
}

/// The work that starts the import: make the rail's base snapshot
/// directory, then copy the disk image into it.
pub open spec fn import_job(root: Seq<char>, repo: Seq<char>, rail: Seq<char>) -> JobView {
    let base = base_dir(repo, rail);
    JobView {
        steps: seq![
            step_view(ActionView::CreateDirAll(base), "Could not create snapshot directory: "@, ""@),
        ],
        spawn: Some(
            CommandView {
                program: "cp"@,
                args: seq!["--reflink=auto"@, disk_image(root), path_join(base, "macos.img"@)],
                cwd: None,
                env: Seq::empty(),
                output: OutputView::Discard,
            },
        ),
        on_done: Some("Copying macOS disk..."@),
        on_spawn_error: "Could not start disk import: "@,
    }
}

/// Decides how to import the macOS guest into the reims-vGPU checkout
/// `repo` as the rail of `version`. `disk` must tell whether the checkout,
/// the disk image, OpenCore and the OVMF files exist.
pub fn import_macos(
    import: &mut Task,
    home_set: bool,
    root: &str,
    repo: &str,
    version: &str,
    disk: &Disk,
) -> (job: Option<Job>)
    ensures
        final(import).running == old(import).running,
        old(import).running ==> job is None && *final(import) == *old(import),
        !old(import).running && !home_set ==> job is None && final(import).status@
            == "Could not determine home directory."@,
        !old(import).running && home_set ==> match import_refusal(root@, repo@, version@, *disk) {
            Some(s) => job is None && final(import).status@ == s,
            None => final(import).status == old(import).status && (job matches Some(j) && j@
                == import_job(root@, repo@, spec_rail_for(version@)->0)),
        },
{
    if import.running {
        return None;
    }
    if !home_set {
        import.status = owned("Could not determine home directory.");
        return None;
    }
    let osx = osx_kvm_path(root);
    let hdd = join_path(osx.as_str(), "mac_hdd_ng.img");
    let oc_dir = join_path(osx.as_str(), "OpenCore");
    let opencore = join_path(oc_dir.as_str(), "OpenCore.qcow2");
    let code = join_path(osx.as_str(), "OVMF_CODE_4M.fd");
    let vars = join_path(osx.as_str(), "OVMF_VARS-1920x1080.fd");
    if !disk.has(repo) {
        import.status = cat("reims-vGPU repository not found: ", repo);
        return None;
    }
    if !disk.has(hdd.as_str()) {
        import.status = cat("mac_hdd_ng.img not found: ", hdd.as_str());
        return None;
    }
    if !disk.has(opencore.as_str()) {
        import.status = cat("OpenCore not found: ", opencore.as_str());
        return None;
    }
    if !disk.has(code.as_str()) {
        import.status = cat("OVMF code not found: ", code.as_str());
        return None;
    }
    if !disk.has(vars.as_str()) {
        import.status = cat("OVMF vars not found: ", vars.as_str());
        return None;
    }
    let rail = match rail_for(version) {
        Some(r) => r,
        None => {
            import.status = owned("Unknown macOS version.");
            return None;
        },
    };
    let snaps = snapshots_dir_of(repo, rail);
    let base = join_path(snaps.as_str(), "base");
    let dest = join_path(base.as_str(), "macos.img");
    let mut steps: Vec<Step> = Vec::new();
    push_step(&mut steps, step(Action::CreateDirAll(base.clone()), "Could not create snapshot directory: ", ""));
    let mut c = CommandSpec::new("cp");
    c.arg("--reflink=auto");
    c.arg(hdd.as_str());
    c.arg(dest.as_str());
    c.set_output(Output::Discard);
    assert(c@.args =~= seq!["--reflink=auto"@, hdd@, dest@]);
    let j = make_job(steps, Some(c), Some(owned("Copying macOS disk...")), "Could not start disk import: ");
    assert(j@.steps =~= import_job(root@, repo@, rail@).steps);
    Some(j)
}

/// The steps that make one imported file read-only.
pub open spec fn readonly_step(p: Seq<char>) -> StepView {
    step_view(
        ActionView::MakeReadonly(p),
        "Could not read permissions for "@ + p + ": "@,
        "Could not make "@ + p + " read-only: "@,
    )
}

/// The work that finishes an import: copy OpenCore and the OVMF files next
/// to the disk, make all four read-only, and point `snapshots/current` at
/// `base`.
pub open spec fn import_finish_job(root: Seq<char>, repo: Seq<char>, rail: Seq<char>, current_exists: bool) -> JobView {
    let base = base_dir(repo, rail);
    let current = path_join(snapshots_dir(repo, rail), "current"@);
    let dst_oc = path_join(base, "OpenCore.qcow2"@);
    let dst_code = path_join(base, "OVMF_CODE.fd"@);
    let dst_vars = path_join(base, "OVMF_VARS.fd"@);
    let copies = seq![
        step_view(
            ActionView::Copy(opencore_image(root), dst_oc),
            "Could not copy OpenCore from "@ + opencore_image(root) + " to "@ + dst_oc + ": "@,
            ""@,
        ),
        step_view(
            ActionView::Copy(osx_kvm_file(root, "OVMF_CODE_4M.fd"@), dst_code),
            "Could not copy OVMF code: "@,
            ""@,
        ),
        step_view(
            ActionView::Copy(osx_kvm_file(root, "OVMF_VARS-1920x1080.fd"@), dst_vars),
            "Could not copy OVMF vars: "@,
            ""@,
        ),
        readonly_step(path_join(base, "macos.img"@)),
        readonly_step(dst_oc),
        readonly_step(dst_code),
        readonly_step(dst_vars),
    ];
    let link = step_view(
        ActionView::Symlink("base"@, current),
        "Could not create snapshots/current: "@,
        ""@,
    );
    JobView {
        steps: if current_exists {
            copies.push(
                step_view(
                    ActionView::RemoveFile(current),
                    "Could not replace snapshots/current: "@,
                    ""@,
                ),
            ).push(link)
        } else {
            copies.push(link)
        },
        spawn: None,
        on_done: Some("macOS successfully imported into reims-vGPU."@),
        on_spawn_error: ""@,
    }
}

fn readonly(p: &str) -> (s: Step)
    ensures
        s@ == readonly_step(p@),
{
    let a = cat3("Could not read permissions for ", p, ": ");
    let b = cat3("Could not make ", p, " read-only: ");
    step(Action::MakeReadonly(owned(p)), a.as_str(), b.as_str())
}

/// Looks at the running disk copy. When it succeeded, `disk` must tell
/// whether OpenCore's image, the base snapshot directory and
/// `snapshots/current` exist, and `home_set` whether `HOME` is set.
pub fn update_import(
    import: &mut Task,
    poll: Poll,
    home_set: bool,
    root: &str,
    repo: &str,
    version: &str,
    disk: &Disk,
) -> (p: Progress)
    ensures
        !old(import).running ==> !p.repaint && p.job is None && *final(import) == *old(import),
        old(import).running ==> match poll {
            Poll::Running => p.repaint && p.job is None && *final(import) == *old(import),
            Poll::Exited { success, .. } => !p.repaint && !final(import).running && if !success {
                p.job is None && final(import).status@ == "macOS disk import failed."@
            } else if !home_set {
                p.job is None && final(import).status@ == "Could not determine home directory."@
            } else {
                match spec_rail_for(version@) {
                    None => p.job is None && final(import).status@ == "Unknown macOS version."@,
                    Some(rail) => if !disk.spec_has(opencore_image(root@)) {
                        p.job is None && final(import).status@ == "Source OpenCore does not exist: "@
                            + opencore_image(root@)
                    } else if !disk.spec_has(base_dir(repo@, rail)) {
                        p.job is None && final(import).status@
                            == "Destination directory does not exist: "@ + base_dir(repo@, rail)
                    } else {
                        final(import).status@ == "Copying OpenCore and OVMF..."@ && (p.job matches Some(j)
                            && j@ == import_finish_job(
                            root@,
                            repo@,
                            rail,
                            disk.spec_has(path_join(snapshots_dir(repo@, rail), "current"@)),
                        ))
                    },
                }
            },
            Poll::Failed(e) => !p.repaint && p.job is None && !final(import).running
                && final(import).status@ == "Failed to check import process: "@ + e@,
        },
{
    if !import.running {
        return Progress { repaint: false, job: None };
    }
    match poll {
        Poll::Running => Progress { repaint: true, job: None },
        Poll::Exited { success, .. } => {
            import.running = false;
            if !success {
                import.status = owned("macOS disk import failed.");
                return Progress { repaint: false, job: None };
            }
            if !home_set {
                import.status = owned("Could not determine home directory.");
                return Progress { repaint: false, job: None };
            }
            let rail = match rail_for(version) {
                Some(r) => r,
                None => {
                    import.status = owned("Unknown macOS version.");
                    return Progress { repaint: false, job: None };
                },
            };
            let osx = osx_kvm_path(root);
            let snaps = snapshots_dir_of(repo, rail);
            let base = join_path(snaps.as_str(), "base");
            let oc_dir = join_path(osx.as_str(), "OpenCore");
            let src_oc = join_path(oc_dir.as_str(), "OpenCore.qcow2");
            let src_code = join_path(osx.as_str(), "OVMF_CODE_4M.fd");
            let src_vars = join_path(osx.as_str(), "OVMF_VARS-1920x1080.fd");
            let dst_oc = join_path(base.as_str(), "OpenCore.qcow2");
            let dst_code = join_path(base.as_str(), "OVMF_CODE.fd");
            let dst_vars = join_path(base.as_str(), "OVMF_VARS.fd");
            import.status = owned("Copying OpenCore and OVMF...");
            if !disk.has(src_oc.as_str()) {
                import.status = cat("Source OpenCore does not exist: ", src_oc.as_str());
                return Progress { repaint: false, job: None };
            }
            if !disk.has(base.as_str()) {
                import.status = cat("Destination directory does not exist: ", base.as_str());
                return Progress { repaint: false, job: None };
            }
            let mut steps: Vec<Step> = Vec::new();
            let a = cat3("Could not copy OpenCore from ", src_oc.as_str(), " to ");
            let b = cat3(a.as_str(), dst_oc.as_str(), ": ");
            push_step(&mut steps, step(Action::Copy(src_oc.clone(), dst_oc.clone()), b.as_str(), ""));
            push_step(&mut steps, step(Action::Copy(src_code.clone(), dst_code.clone()), "Could not copy OVMF code: ", ""));
            push_step(&mut steps, step(Action::Copy(src_vars.clone(), dst_vars.clone()), "Could not copy OVMF vars: ", ""));
            let image = join_path(base.as_str(), "macos.img");
            push_step(&mut steps, readonly(image.as_str()));
            push_step(&mut steps, readonly(dst_oc.as_str()));
            push_step(&mut steps, readonly(dst_code.as_str()));
            push_step(&mut steps, readonly(dst_vars.as_str()));
            let current = join_path(snaps.as_str(), "current");
            let current_exists = disk.has(current.as_str());
            if current_exists {
                push_step(&mut steps, step(Action::RemoveFile(current.clone()), "Could not replace snapshots/current: ", ""));
            }
            push_step(&mut steps, step(Action::Symlink(owned("base"), current.clone()), "Could not create snapshots/current: ", ""));
            let j = make_job(steps, None, Some(owned("macOS successfully imported into reims-vGPU.")), "");
            assert(j@.steps =~= import_finish_job(root@, repo@, rail@, current_exists).steps);
            Progress { repaint: false, job: Some(j) }
        },
        Poll::Failed(e) => {
            import.status = cat("Failed to check import process: ", e.as_str());
            import.running = false;
            Progress { repaint: false, job: None }
        },
    }
}

/// Starting the installer converts the recovery image it has just copied:
/// the first step copies the downloaded `BaseSystem.dmg` into OSX-KVM, the
/// last step runs `dmg2img` with that copy as its input and
/// `OSX-KVM/BaseSystem.img` as its output, and a removal step, when there
/// is one, clears that output first.
pub proof fn lemma_installer_converts_the_copy(root: Seq<char>, version: Seq<char>, img_exists: bool)
    ensures
        ({
            let job = installer_job(root, version, img_exists);
            let osx = path_join(root, "OSX-KVM"@);
            let copied = path_join(osx, "BaseSystem.dmg"@);
            let img = path_join(osx, "BaseSystem.img"@);
            &&& job.steps[0].action == ActionView::Copy(
                path_join(path_join(path_join(root, "macos"@), version), "BaseSystem.dmg"@),
                copied,
            )
            &&& job.steps.last().action matches ActionView::Run(c) && c.program == "dmg2img"@ && c.args
                == seq![copied, img]
            &&& img_exists ==> job.steps.len() == 3 && job.steps[1].action == ActionView::RemoveFile(img)
            &&& !img_exists ==> job.steps.len() == 2
        }),
{
}

/// Finishing an import copies each boot file to its own name in the rail's
/// base snapshot: OpenCore's image to `OpenCore.qcow2`, the OVMF code
/// firmware to `OVMF_CODE.fd` and the OVMF variables to `OVMF_VARS.fd`;
/// no other step copies anything.
pub proof fn lemma_import_copies_each_file_to_its_place(
    root: Seq<char>,
    repo: Seq<char>,
    rail: Seq<char>,
    current_exists: bool,
)
    ensures
        ({
            let job = import_finish_job(root, repo, rail, current_exists);
            let osx = path_join(root, "OSX-KVM"@);
            let base = path_join(
                path_join(
                    path_join(path_join(path_join(path_join(repo, "vm"@), "disks"@), "rails"@), rail),
                    "snapshots"@,
                ),
                "base"@,
            );
            &&& job.steps[0].action == ActionView::Copy(
                path_join(path_join(osx, "OpenCore"@), "OpenCore.qcow2"@),
                path_join(base, "OpenCore.qcow2"@),
            )
            &&& job.steps[1].action == ActionView::Copy(
                path_join(osx, "OVMF_CODE_4M.fd"@),
                path_join(base, "OVMF_CODE.fd"@),
            )
            &&& job.steps[2].action == ActionView::Copy(
                path_join(osx, "OVMF_VARS-1920x1080.fd"@),
                path_join(base, "OVMF_VARS.fd"@),
            )
            &&& forall|i: int| 3 <= i < job.steps.len() ==> !(#[trigger] job.steps[i].action is Copy)
        }),
{
}

} // verus!
