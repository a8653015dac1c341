//! Everything the application shows and decides on, in one place.
use vstd::prelude::*;
use crate::catalog::{rail_for, rail_name, rail_names, spec_rail_for};
use crate::command::Task;
use crate::deps::Dependencies;
use crate::download::Download;
use crate::install::{
    base_dir, clone_path, disk_image, opencore_image, osx_kvm_file, recovery_dmg, snapshots_dir,
    snapshots_dir_of, VirtualDisk,
};
use crate::paths::{
    join_path, macos_download_path, osx_kvm_marker, osx_kvm_path, path_join, reims_vgpu_marker,
    reims_vgpu_path, spec_osx_kvm_marker, spec_osx_kvm_path, spec_reims_vgpu_marker,
    spec_reims_vgpu_path, string_views,
};
use crate::system::SystemChecks;
use crate::text::owned;
use crate::updates::Updates;
use crate::vm::{build_script, qemu_binary, rail_current, rail_marker, Vm};

verus! {

/// The state of the whole application: the selected macOS version, and
/// each task's status and whether its process runs.
pub struct AppModel {
    pub macos_version: String,
    pub system: SystemChecks,
    pub download: Download,
    pub disk: VirtualDisk,
    pub installer: Task,
    pub repo: Task,
    pub osx_kvm: Task,
    pub import: Task,
    pub build: Task,
    pub vm: Vm,
    pub deps: Dependencies,
    pub updates: Updates,
}

/// Whether a model is as the application starts: macOS 13 Ventura
/// selected, nothing checked, nothing running, and each task's starting
/// status.
pub open spec fn is_initial(m: AppModel) -> bool {
    &&& m.macos_version@ == "macOS 13 Ventura"@
    &&& m.system.checks@.len() == 0 && !m.system.checked
    &&& m.download.task.status@ == "Ready"@ && !m.download.task.running
    &&& m.download.product@ == Seq::<char>::empty() && m.download.log_path is None
    &&& m.disk.size_gb == 64 && m.disk.status@ == "Not created"@ && !m.disk.created
    &&& m.installer.status@ == "Ready"@ && !m.installer.running
    &&& m.repo.status@ == "Not downloaded"@ && !m.repo.running
    &&& m.osx_kvm.status@ == "Not downloaded"@ && !m.osx_kvm.running
    &&& m.import.status@ == "Not imported"@ && !m.import.running
    &&& m.build.status@ == "Not built"@ && !m.build.running
    &&& m.vm.task.status@ == "Ready"@ && !m.vm.task.running
    &&& m.vm.rail@ == "macos-13"@ && m.vm.device@ == "reims-vgpu-pci"@
    &&& m.deps.checks@.len() == 0 && !m.deps.checked
    &&& m.deps.task.status@ == "Not checked"@ && !m.deps.task.running
    &&& m.updates.gui_latest@ == Seq::<char>::empty() && m.updates.gui_status@ == "Not checked"@
    &&& !m.updates.gui_available && !m.updates.gui_checking && !m.updates.gui_installing
    &&& m.updates.reims_local@ == Seq::<char>::empty() && m.updates.reims_remote@ == Seq::<char>::empty()
    &&& m.updates.reims_status@ == "Not checked"@
    &&& !m.updates.reims_available && !m.updates.reims_checking && !m.updates.reims_updating
}

impl Default for AppModel {
    fn default() -> (m: AppModel)
        ensures
            is_initial(m),
    {
        AppModel {
            macos_version: owned("macOS 13 Ventura"),
            system: SystemChecks::new(),
            download: Download::new(),
            disk: VirtualDisk::new(),
            installer: Task::new("Ready"),
            repo: Task::new("Not downloaded"),
            osx_kvm: Task::new("Not downloaded"),
            import: Task::new("Not imported"),
            build: Task::new("Not built"),
            vm: Vm::new(),
            deps: Dependencies::new(),
            updates: Updates::new(),
        }
    }
}

/// Every path whose presence the decisions of this library look at, for
/// the download root `root`, the reims-vGPU checkout `repo`, the selected
/// macOS `version` and the VM's `rail`: OSX-KVM and its files, the clone
/// of it, the recovery image, the reims-vGPU checkout under the root and
/// its files, the checkout `repo` with its boot script, QEMU binary and
/// the rails' snapshots.
pub open spec fn spec_watched_paths(root: Seq<char>, repo: Seq<char>, version: Seq<char>, rail: Seq<char>) -> Seq<
    Seq<char>,
> {
    let osx = spec_osx_kvm_path(root);
    let reims = spec_reims_vgpu_path(root);
    let fixed = seq![
        osx,
        path_join(osx, ".git"@),
        path_join(osx, "OpenCore"@),
        clone_path(root),
        path_join(clone_path(root), ".git"@),
        disk_image(root),
        spec_osx_kvm_marker(root),
        osx_kvm_file(root, "OpenCore-Boot.sh"@),
        osx_kvm_file(root, "BaseSystem.img"@),
        opencore_image(root),
        osx_kvm_file(root, "OVMF_CODE_4M.fd"@),
        osx_kvm_file(root, "OVMF_VARS-1920x1080.fd"@),
        recovery_dmg(root, version),
        reims,
        spec_reims_vgpu_marker(root),
        path_join(reims, ".git"@),
        build_script(root),
        qemu_binary(reims),
        repo,
        path_join(repo, "vm/boot-x86.sh"@),
        qemu_binary(repo),
        rail_current(repo, rail),
    ];
    let imported = match spec_rail_for(version) {
        Some(r) => seq![base_dir(repo, r), rail_current(repo, r)],
        None => Seq::empty(),
    };
    fixed + imported + rail_markers(repo, 6)
}

/// The current-snapshot markers of the first `n` rails in `repo`.
pub open spec fn rail_markers(repo: Seq<char>, n: nat) -> Seq<Seq<char>>
    decreases n,
{
    if n == 0 {
        Seq::empty()
    } else {
        rail_markers(repo, (n - 1) as nat).push(rail_marker(repo, rail_names()[n - 1].0))
    }
}

fn push_joined(v: &mut Vec<String>, base: &str, part: &str)
    ensures
        string_views(final(v)@) == string_views(old(v)@).push(path_join(base@, part@)),
{
    let p = join_path(base, part);
    let ghost before = v@;
    v.push(p);
    assert(string_views(v@) =~= string_views(before).push(path_join(base@, part@)));
}

fn push_owned(v: &mut Vec<String>, p: String)
    ensures
        string_views(final(v)@) == string_views(old(v)@).push(p@),
{
    let ghost before = v@;
    v.push(p);
    assert(string_views(v@) =~= string_views(before).push(p@));
}

/// The paths whose presence the decisions look at; the application finds
/// out which of them exist before it asks the library to decide.
pub fn watched_paths(root: &str, repo: &str, version: &str, rail: &str) -> (r: Vec<String>)
    ensures
        string_views(r@) == spec_watched_paths(root@, repo@, version@, rail@),
{
    let osx = osx_kvm_path(root);
    let reims = reims_vgpu_path(root);
    let clone = join_path(root, "OSX-KVM-clone");
    let oc_dir = join_path(osx.as_str(), "OpenCore");
    let recovery = macos_download_path(root, version);
    let mut v: Vec<String> = Vec::new();
    push_owned(&mut v, osx.clone());
    push_joined(&mut v, osx.as_str(), ".git");
    push_owned(&mut v, oc_dir.clone());
    push_owned(&mut v, clone.clone());
    push_joined(&mut v, clone.as_str(), ".git");
    push_joined(&mut v, osx.as_str(), "mac_hdd_ng.img");
    push_owned(&mut v, osx_kvm_marker(root));
    push_joined(&mut v, osx.as_str(), "OpenCore-Boot.sh");
    push_joined(&mut v, osx.as_str(), "BaseSystem.img");
    push_joined(&mut v, oc_dir.as_str(), "OpenCore.qcow2");
    push_joined(&mut v, osx.as_str(), "OVMF_CODE_4M.fd");
    push_joined(&mut v, osx.as_str(), "OVMF_VARS-1920x1080.fd");
    push_joined(&mut v, recovery.as_str(), "BaseSystem.dmg");
    push_owned(&mut v, reims.clone());
    push_owned(&mut v, reims_vgpu_marker(root));
    push_joined(&mut v, reims.as_str(), ".git");
    push_joined(&mut v, reims.as_str(), "scripts/qemu-build/qemu-build.sh");
    push_joined(&mut v, reims.as_str(), "vendor/qemu/build/qemu-system-x86_64");
    push_owned(&mut v, owned(repo));
    push_joined(&mut v, repo, "vm/boot-x86.sh");
    push_joined(&mut v, repo, "vendor/qemu/build/qemu-system-x86_64");
    let snaps = snapshots_dir_of(repo, rail);
    push_joined(&mut v, snaps.as_str(), "current");
    match rail_for(version) {
        Some(r) => {
            let s = snapshots_dir_of(repo, r);
            push_joined(&mut v, s.as_str(), "base");
            push_joined(&mut v, s.as_str(), "current");
        },
        None => {},
    }
    let ghost head = string_views(v@);
    let rails_dir = join_path(repo, "vm/disks/rails");
    let mut i: usize = 0;
    while i < 6
        invariant
            0 <= i <= 6,
            rails_dir@ == path_join(repo@, "vm/disks/rails"@),
            string_views(v@) == head + rail_markers(repo@, i as nat),
        decreases 6 - i,
    {
        let (name, _) = rail_name(i);
        let a = join_path(rails_dir.as_str(), name);
        let b = join_path(a.as_str(), "snapshots");
        push_joined(&mut v, b.as_str(), "current");
        assert(head + rail_markers(repo@, (i + 1) as nat) =~= (head + rail_markers(repo@, i as nat)).push(
            rail_marker(repo@, rail_names()[i as int].0),
        ));
        i = i + 1;
    }
    assert(string_views(v@) =~= spec_watched_paths(root@, repo@, version@, rail@));
    v
}

} // verus!
