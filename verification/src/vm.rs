//! The reims-vGPU checkout, its QEMU build, and the virtual machine.
use vstd::prelude::*;
use crate::catalog::{device_label, rail_name, rail_names, spec_device_label};
use crate::command::{
    make_job, push_step, step, step_view, Action, ActionView, CommandSpec, CommandView, Job,
    JobView, Output, OutputView, Poll, Step, Task,
};
use crate::install::{snapshots_dir, snapshots_dir_of};
use crate::paths::{
    join_path, path_join, path_parent, path_parent_of, reims_vgpu_path, spec_reims_vgpu_path,
    Disk,
};
use crate::text::{cat, cat3, owned, str_eq};

verus! {

// ---------------------------------------------------------------------
// Downloading the repository
// ---------------------------------------------------------------------

/// The work that downloads reims-vGPU: make the parent directory, then
/// clone the repository.
pub open spec fn repo_job(repo: Seq<char>, parent: Seq<char>) -> JobView {
    JobView {
        steps: seq![
            step_view(
                ActionView::CreateDirAll(parent),
                "Could not create repository directory: "@,
                ""@,
            ),
        ],
        spawn: Some(
            CommandView {
                program: "git"@,
                args: seq!["clone"@, "https://github.com/steelbrain/reims-vgpu.git"@, repo],
                cwd: None,
                env: Seq::empty(),
                output: OutputView::Discard,
            },
        ),
        on_done: Some("Downloading reims-vGPU repository..."@),
        on_spawn_error: "Could not start git: "@,
    }
}

/// Decides how to download the reims-vGPU repository into the download
/// root; `disk` must tell whether the checkout exists.
pub fn download_repo(repo_task: &mut Task, root: &str, disk: &Disk) -> (job: Option<Job>)
    ensures
        final(repo_task).running == old(repo_task).running,
        old(repo_task).running ==> job is None && *final(repo_task) == *old(repo_task),
        !old(repo_task).running ==> {
            let repo = spec_reims_vgpu_path(root@);
            if disk.spec_has(repo) {
                job is None && final(repo_task).status@ == "Repository already exists: "@ + repo
            } else {
                match path_parent_of(repo) {
                    None => job is None && final(repo_task).status@ == "Invalid repository path."@,
                    Some(parent) => final(repo_task).status == old(repo_task).status && (job matches Some(j)
                        && j@ == repo_job(repo, parent)),
                }
            }
        },
{
    if repo_task.running {
        return None;
    }
    let repo = reims_vgpu_path(root);
    if disk.has(repo.as_str()) {
        repo_task.status = cat("Repository already exists: ", repo.as_str());
        return None;
    }
    let parent = match path_parent(repo.as_str()) {
        Some(p) => p,
        None => {
            repo_task.status = owned("Invalid repository path.");
            return None;
        },
    };
    let mut steps: Vec<Step> = Vec::new();
    push_step(&mut steps, step(Action::CreateDirAll(parent.clone()), "Could not create repository directory: ", ""));
    let mut c = CommandSpec::new("git");
    c.arg("clone");
    c.arg("https://github.com/steelbrain/reims-vgpu.git");
    c.arg(repo.as_str());
    c.set_output(Output::Discard);
    assert(c@.args =~= seq!["clone"@, "https://github.com/steelbrain/reims-vgpu.git"@, repo@]);
    let j = make_job(steps, Some(c), Some(owned("Downloading reims-vGPU repository...")), "Could not start git: ");
    assert(j@.steps =~= repo_job(repo@, parent@).steps);
    Some(j)
}

/// The status once a background process exited or could not be looked at.
pub open spec fn exit_status(poll: Poll, ok: Seq<char>, failed: Seq<char>, check_failed: Seq<char>) -> Seq<char> {
    match poll {
        Poll::Exited { success, .. } => if success {
            ok
        } else {
            failed
        },
        Poll::Failed(e) => check_failed + e@,
        Poll::Running => Seq::empty(),
    }
}

/// What a look at a running process that only reports its outcome does:
/// while it runs, ask for a redraw; once it exited or could not be looked
/// at, it no longer runs and the status says how it ended.
pub open spec fn polled(old_task: Task, new_task: Task, poll: Poll, repaint: bool, ok: Seq<char>, failed: Seq<char>, check_failed: Seq<char>) -> bool {
    if !old_task.running {
        !repaint && new_task == old_task
    } else {
        match poll {
            Poll::Running => repaint && new_task == old_task,
            _ => !repaint && !new_task.running && new_task.status@ == exit_status(poll, ok, failed, check_failed),
        }
    }
}

/// Looks at a process that only reports its outcome.
pub fn poll_simple(task: &mut Task, poll: Poll, ok: &str, failed: &str, check_failed: &str) -> (repaint: bool)
    ensures
        polled(*old(task), *final(task), poll, repaint, ok@, failed@, check_failed@),
{
    if !task.running {
        return false;
    }
    match poll {
        Poll::Running => true,
        Poll::Exited { success, .. } => {
            task.status = if success {
                owned(ok)
            } else {
                owned(failed)
            };
            task.running = false;
            false
        },
        Poll::Failed(e) => {
            task.status = cat(check_failed, e.as_str());
            task.running = false;
            false
        },
    }
}

/// Looks at the running clone of the repository.
pub fn update_repo(repo_task: &mut Task, poll: Poll) -> (repaint: bool)
    ensures
        polled(
            *old(repo_task),
            *final(repo_task),
            poll,
            repaint,
            "Repository downloaded!"@,
            "Repository download failed."@,
            "Failed to check git process: "@,
        ),
{
    poll_simple(repo_task, poll, "Repository downloaded!", "Repository download failed.", "Failed to check git process: ")
}

// ---------------------------------------------------------------------
// Building QEMU
// ---------------------------------------------------------------------

pub open spec fn build_script(root: Seq<char>) -> Seq<char> {
    path_join(spec_reims_vgpu_path(root), "scripts/qemu-build/qemu-build.sh"@)
}

pub open spec fn qemu_binary(repo: Seq<char>) -> Seq<char> {
    path_join(repo, "vendor/qemu/build/qemu-system-x86_64"@)
}

/// The work that starts the QEMU build.
pub open spec fn build_job(root: Seq<char>) -> JobView {
    JobView {
        steps: Seq::empty(),
        spawn: Some(
            CommandView {
                program: "bash"@,
                args: seq![build_script(root), "--target"@, "x86_64"@, "--backend"@, "vulkan"@],
                cwd: Some(spec_reims_vgpu_path(root)),
                env: Seq::empty(),
                output: OutputView::Discard,
            },
        ),
        on_done: Some("Building QEMU with the Vulkan backend..."@),
        on_spawn_error: "Could not start QEMU build: "@,
    }
}

/// Decides how to build QEMU in the checkout under the download root;
/// `disk` must tell whether the checkout and its build script exist.
pub fn build_qemu(build: &mut Task, root: &str, disk: &Disk) -> (job: Option<Job>)
    ensures
        final(build).running == old(build).running,
        old(build).running ==> job is None && *final(build) == *old(build),
        !old(build).running ==> if !disk.spec_has(spec_reims_vgpu_path(root@)) {
            job is None && final(build).status@ == "reims-vGPU repository not found: "@
                + spec_reims_vgpu_path(root@)
        } else if !disk.spec_has(build_script(root@)) {
            job is None && final(build).status@ == "QEMU build script not found: "@ + build_script(root@)
        } else {
            final(build).status == old(build).status && (job matches Some(j) && j@ == build_job(root@))
        },
{
    if build.running {
        return None;
    }
    let repo = reims_vgpu_path(root);
    let script = join_path(repo.as_str(), "scripts/qemu-build/qemu-build.sh");
    if !disk.has(repo.as_str()) {
        build.status = cat("reims-vGPU repository not found: ", repo.as_str());
        return None;
    }
    if !disk.has(script.as_str()) {
        build.status = cat("QEMU build script not found: ", script.as_str());
        return None;
    }
    let mut c = CommandSpec::new("bash");
    c.arg(script.as_str());
    c.arg("--target");
    c.arg("x86_64");
    c.arg("--backend");
    c.arg("vulkan");
    c.current_dir(repo.as_str());
    c.set_output(Output::Discard);
    assert(c@.args =~= seq![script@, "--target"@, "x86_64"@, "--backend"@, "vulkan"@]);
    let j = make_job(Vec::new(), Some(c), Some(owned("Building QEMU with the Vulkan backend...")), "Could not start QEMU build: ");
    assert(j@.steps =~= Seq::empty());
    Some(j)
}

/// Looks at the running build; when it succeeded, `disk` must tell whether
/// the QEMU binary exists under the download root's checkout.
pub fn update_build(build: &mut Task, poll: Poll, root: &str, disk: &Disk) -> (repaint: bool)
    ensures
        polled(
            *old(build),
            *final(build),
            poll,
            repaint,
            if disk.spec_has(qemu_binary(spec_reims_vgpu_path(root@))) {
                "Built successfully."@
            } else {
                "Build finished but QEMU binary was not found."@
            },
            "QEMU build failed."@,
            "Failed to check QEMU build: "@,
        ),
{
    let repo = reims_vgpu_path(root);
    let qemu = join_path(repo.as_str(), "vendor/qemu/build/qemu-system-x86_64");
    let ok = if disk.has(qemu.as_str()) {
        "Built successfully."
    } else {
        "Build finished but QEMU binary was not found."
    };
    poll_simple(build, poll, ok, "QEMU build failed.", "Failed to check QEMU build: ")
}

/// Whether the last build succeeded.
pub fn is_built(build: &Task) -> (r: bool)
    ensures
        r == (build.status@ == "Built successfully."@),
{
    str_eq(build.status.as_str(), "Built successfully.")
}

// ---------------------------------------------------------------------
// The virtual machine
// ---------------------------------------------------------------------

/// The VM: the rail and graphics device it boots with, and its status.
pub struct Vm {
    pub task: Task,
    pub rail: String,
    pub device: String,
}

/// The snapshot a rail boots from.
pub open spec fn rail_current(repo: Seq<char>, rail: Seq<char>) -> Seq<char> {
    path_join(snapshots_dir(repo, rail), "current"@)
}

/// Why the VM cannot be started, if it cannot.
pub open spec fn vm_refusal(repo: Seq<char>, rail: Seq<char>, device: Seq<char>, disk: Disk) -> Option<Seq<char>> {
    if !disk.spec_has(repo) {
        Some("reims-vGPU repository not found."@)
    } else if !disk.spec_has(path_join(repo, "vm/boot-x86.sh"@)) {
        Some("vm/boot-x86.sh not found."@)
    } else if !disk.spec_has(rail_current(repo, rail)) {
        Some("Rail "@ + rail + " has not been imported yet."@)
    } else if device == "reims-vgpu-pci"@ && !disk.spec_has(qemu_binary(repo)) {
        Some("QEMU is not built. Build QEMU first."@)
    } else {
        None
    }
}

/// The work that starts the VM: the boot script, interactive, with the
/// device and rail, on the Vulkan backend.
pub open spec fn vm_job(repo: Seq<char>, rail: Seq<char>, device: Seq<char>) -> JobView {
    JobView {
        steps: Seq::empty(),
        spawn: Some(
            CommandView {
                program: "bash"@,
                args: seq!["vm/boot-x86.sh"@, "--interactive"@, "--device"@, device, "--rail"@, rail],
                cwd: Some(repo),
                env: seq![("REIMS_VGPU_BACKEND"@, "vulkan"@)],
                output: OutputView::Inherit,
            },
        ),
        on_done: Some(rail + " started with "@ + spec_device_label(device) + "."@),
        on_spawn_error: "Failed to launch VM: "@,
    }
}

impl Vm {
    pub fn new() -> (v: Vm)
        ensures
            v.task.status@ == "Ready"@,
            !v.task.running,
            v.rail@ == "macos-13"@,
            v.device@ == "reims-vgpu-pci"@,
    {
        Vm { task: Task::new("Ready"), rail: owned("macos-13"), device: owned("reims-vgpu-pci") }
    }

    /// Decides how to start the VM from the reims-vGPU checkout `repo`;
    /// `disk` must tell whether the checkout, its boot script, the rail's
    /// current snapshot and the QEMU binary exist.
    pub fn launch_vm(&mut self, repo: &str, disk: &Disk) -> (job: Option<Job>)
        ensures
            final(self).rail == old(self).rail,
            final(self).device == old(self).device,
            final(self).task.running == old(self).task.running,
            old(self).task.running ==> job is None && final(self).task == old(self).task,
            !old(self).task.running ==> match vm_refusal(repo@, old(self).rail@, old(self).device@, *disk) {
                Some(s) => job is None && final(self).task.status@ == s,
                None => final(self).task.status@ == "Starting "@ + old(self).rail@ + " with "@
                    + spec_device_label(old(self).device@) + "..."@ && (job matches Some(j) && j@ == vm_job(
                    repo@,
                    old(self).rail@,
                    old(self).device@,
                )),
            },
    {
        if self.task.running {
            return None;
        }
        let boot = join_path(repo, "vm/boot-x86.sh");
        if !disk.has(repo) {
            self.task.status = owned("reims-vGPU repository not found.");
            return None;
        }
        if !disk.has(boot.as_str()) {
            self.task.status = owned("vm/boot-x86.sh not found.");
            return None;
        }
        let snaps = snapshots_dir_of(repo, self.rail.as_str());
        let current = join_path(snaps.as_str(), "current");
        if !disk.has(current.as_str()) {
            self.task.status = cat3("Rail ", self.rail.as_str(), " has not been imported yet.");
            return None;
        }
        if str_eq(self.device.as_str(), "reims-vgpu-pci") {
            let qemu = join_path(repo, "vendor/qemu/build/qemu-system-x86_64");
            if !disk.has(qemu.as_str()) {
                self.task.status = owned("QEMU is not built. Build QEMU first.");
                return None;
            }
        }
        let label = device_label(self.device.as_str());
        let a = cat3("Starting ", self.rail.as_str(), " with ");
        self.task.status = cat3(a.as_str(), label, "...");
        let mut c = CommandSpec::new("bash");
        c.arg("vm/boot-x86.sh");
        c.arg("--interactive");
        c.arg("--device");
        c.arg(self.device.as_str());
        c.arg("--rail");
        c.arg(self.rail.as_str());
        c.current_dir(repo);
        c.env_var("REIMS_VGPU_BACKEND", "vulkan");
        assert(c@.args =~= seq!["vm/boot-x86.sh"@, "--interactive"@, "--device"@, self.device@, "--rail"@, self.rail@]);
        assert(c@.env =~= seq![("REIMS_VGPU_BACKEND"@, "vulkan"@)]);
        let b = cat3(self.rail.as_str(), " started with ", label);
        let done = cat(b.as_str(), ".");
        let j = make_job(Vec::new(), Some(c), Some(done), "Failed to launch VM: ");
        assert(j@.steps =~= Seq::empty());
        Some(j)
    }

    /// Looks at the running VM. Returns whether the window should be drawn
    /// again soon.
    pub fn update_vm(&mut self, poll: Poll) -> (repaint: bool)
        ensures
            final(self).rail == old(self).rail,
            final(self).device == old(self).device,
            !old(self).task.running ==> !repaint && final(self).task == old(self).task,
            old(self).task.running ==> match poll {
                Poll::Running => repaint && final(self).task == old(self).task,
                Poll::Exited { success, description, .. } => !repaint && !final(self).task.running
                    && final(self).task.status@ == if success {
                    "VM exited."@
                } else {
                    "VM exited with status "@ + description@ + "."@
                },
                Poll::Failed(e) => !repaint && !final(self).task.running && final(self).task.status@
                    == "Failed to check VM: "@ + e@,
            },
    {
        if !self.task.running {
            return false;
        }
        match poll {
            Poll::Running => true,
            Poll::Exited { success, description, .. } => {
                if success {
                    self.task.status = owned("VM exited.");
                } else {
                    self.task.status = cat3("VM exited with status ", description.as_str(), ".");
                }
                self.task.running = false;
                false
            },
            Poll::Failed(e) => {
                self.task.status = cat("Failed to check VM: ", e.as_str());
                self.task.running = false;
                false
            },
        }
    }

    /// Records the outcome of stopping the running VM (`kill`: whether the
    /// kill signal could be sent, or why not); a VM that is not running is
    /// left alone.
    pub fn stop_vm(&mut self, kill: Result<(), String>)
        ensures
            final(self).rail == old(self).rail,
            final(self).device == old(self).device,
            !old(self).task.running ==> final(self).task == old(self).task,
            old(self).task.running ==> !final(self).task.running && final(self).task.status@ == match kill {
                Ok(_) => "VM stopped."@,
                Err(e) => "Failed to stop VM: "@ + e@,
            },
    {
        if self.task.running {
            self.task.running = false;
            match kill {
                Ok(_) => {
                    self.task.status = owned("VM stopped.");
                },
                Err(e) => {
                    self.task.status = cat("Failed to stop VM: ", e.as_str());
                },
            }
        }
    }

    /// Keeps the selected rail when it is installed, otherwise selects the
    /// first installed rail; with no installed rail the selection stays.
    pub fn choose_rail(&mut self, installed: &Vec<(String, String)>)
        ensures
            final(self).task == old(self).task,
            final(self).device == old(self).device,
            installed@.len() == 0 ==> final(self).rail == old(self).rail,
            installed@.len() > 0 ==> {
                let selected = exists|i: int| 0 <= i < installed@.len() && #[trigger] installed@[i].0@ == old(self).rail@;
                &&& selected ==> final(self).rail@ == old(self).rail@
                &&& !selected ==> final(self).rail@ == installed@[0].0@
            },
    {
        if installed.len() == 0 {
            return;
        }
        let mut i: usize = 0;
        while i < installed.len()
            invariant
                0 <= i <= installed@.len(),
                forall|j: int| 0 <= j < i ==> #[trigger] installed@[j].0@ != self.rail@,
            decreases installed@.len() - i,
        {
            if str_eq(installed[i].0.as_str(), self.rail.as_str()) {
                return;
            }
            i = i + 1;
        }
        self.rail = installed[0].0.clone();
    }
}

/// The snapshot whose presence shows that a rail is installed.
pub open spec fn rail_marker(repo: Seq<char>, rail: Seq<char>) -> Seq<char> {
    path_join(path_join(path_join(path_join(repo, "vm/disks/rails"@), rail), "snapshots"@), "current"@)
}

/// The installed rails among `names`: those whose current snapshot exists
/// in the checkout `repo`, in order, with their display names.
pub open spec fn installed_rails_of(repo: Seq<char>, disk: Disk, names: Seq<(Seq<char>, Seq<char>)>) -> Seq<(Seq<char>, Seq<char>)>
    decreases names.len(),
{
    if names.len() == 0 {
        Seq::empty()
    } else {
        let prev = installed_rails_of(repo, disk, names.drop_last());
        if disk.spec_has(rail_marker(repo, names.last().0)) {
            prev.push(names.last())
        } else {
            prev
        }
    }
}

pub open spec fn pair_views(v: Seq<(String, String)>) -> Seq<(Seq<char>, Seq<char>)> {
    v.map_values(|p: (String, String)| (p.0@, p.1@))
}

/// The installed rails in the checkout `repo`, with their display names;
/// `disk` must tell whether each rail's current snapshot exists.
pub fn get_installed_rails(repo: &str, disk: &Disk) -> (r: Vec<(String, String)>)
    ensures
        pair_views(r@) == installed_rails_of(repo@, *disk, rail_names()),
{
    let rails_dir = join_path(repo, "vm/disks/rails");
    let mut r: Vec<(String, String)> = Vec::new();
    let mut i: usize = 0;
    while i < 6
        invariant
            0 <= i <= 6,
            rails_dir@ == path_join(repo@, "vm/disks/rails"@),
            pair_views(r@) == installed_rails_of(repo@, *disk, rail_names().take(i as int)),
        decreases 6 - i,
    {
        let (rail, name) = rail_name(i);
        let a = join_path(rails_dir.as_str(), rail);
        let b = join_path(a.as_str(), "snapshots");
        let marker = join_path(b.as_str(), "current");
        assert(rail_names().take(i + 1).drop_last() =~= rail_names().take(i as int));
        assert(rail_names().take(i + 1).last() == rail_names()[i as int]);
        if disk.has(marker.as_str()) {
            let ghost before = r@;
            r.push((owned(rail), owned(name)));
            assert(pair_views(r@) =~= pair_views(before).push((rail@, name@)));
        }
        i = i + 1;
    }
    assert(rail_names().take(6) =~= rail_names());
    r
}

} // verus!
