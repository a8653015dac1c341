//! Where things live: the download root and the directories and files
//! under it, and a snapshot of which of them are on disk.
use vstd::prelude::*;
use crate::text::{cat, chars_of, owned, str_eq};

verus! {

/// Joins a path component onto a path the way `PathBuf::push` does on
/// POSIX: an absolute component replaces the path; otherwise a `/` is put
/// between them unless the path is empty or already ends in `/`.
pub open spec fn path_join(base: Seq<char>, part: Seq<char>) -> Seq<char> {
    if part.len() > 0 && part[0] == '/' {
        part
    } else if base.len() == 0 || base.last() == '/' {
        base + part
    } else {
        base + seq!['/'] + part
    }
}

/// `Path::join`.
pub fn join_path(base: &str, part: &str) -> (r: String)
    ensures
        r@ == path_join(base@, part@),
{
    let b = chars_of(base);
    let p = chars_of(part);
    if p.len() > 0 && p[0] == '/' {
        owned(part)
    } else if b.len() == 0 || b[b.len() - 1] == '/' {
        cat(base, part)
    } else {
        let with_sep = cat(base, "/");
        proof {
            reveal_strlit("/");
        }
        assert("/"@ =~= seq!['/']);
        cat(with_sep.as_str(), part)
    }
}

/// Joins several components in turn.
pub open spec fn path_join_all(base: Seq<char>, parts: Seq<Seq<char>>) -> Seq<char>
    decreases parts.len(),
{
    if parts.len() == 0 {
        base
    } else {
        path_join(path_join_all(base, parts.drop_last()), parts.last())
    }
}

/// The directory everything is downloaded to: `$HOME/reims-gui-downloads`,
/// or `.` when `HOME` is not set.
pub open spec fn spec_download_root(home: Option<Seq<char>>) -> Seq<char> {
    match home {
        Some(h) => path_join(h, "reims-gui-downloads"@),
        None => "."@,
    }
}

/// The download root for the given value of `HOME`.
pub fn download_root(home: Option<&str>) -> (r: String)
    ensures
        r@ == spec_download_root(
            match home {
                Some(h) => Some(h@),
                None => None,
            },
        ),
{
    match home {
        Some(h) => join_path(h, "reims-gui-downloads"),
        None => owned("."),
    }
}

/// Where the recovery image of a macOS version is downloaded.
pub open spec fn spec_macos_download_path(root: Seq<char>, version: Seq<char>) -> Seq<char> {
    path_join(path_join(root, "macos"@), version)
}

pub fn macos_download_path(root: &str, version: &str) -> (r: String)
    ensures
        r@ == spec_macos_download_path(root@, version@),
{
    let m = join_path(root, "macos");
    join_path(m.as_str(), version)
}

/// The OSX-KVM checkout.
pub open spec fn spec_osx_kvm_path(root: Seq<char>) -> Seq<char> {
    path_join(root, "OSX-KVM"@)
}

pub fn osx_kvm_path(root: &str) -> (r: String)
    ensures
        r@ == spec_osx_kvm_path(root@),
{
    join_path(root, "OSX-KVM")
}

/// The reims-vGPU checkout.
pub open spec fn spec_reims_vgpu_path(root: Seq<char>) -> Seq<char> {
    path_join(root, "reims-vgpu"@)
}

pub fn reims_vgpu_path(root: &str) -> (r: String)
    ensures
        r@ == spec_reims_vgpu_path(root@),
{
    join_path(root, "reims-vgpu")
}

/// The reims-vGPU checkout the VM tools use: `REIMS_VGPU_REPO` when it is
/// set, the one under the download root otherwise.
pub open spec fn spec_repo_dir(repo_override: Option<Seq<char>>, root: Seq<char>) -> Seq<char> {
    match repo_override {
        Some(p) => p,
        None => spec_reims_vgpu_path(root),
    }
}

pub fn repo_dir(repo_override: Option<&str>, root: &str) -> (r: String)
    ensures
        r@ == spec_repo_dir(
            match repo_override {
                Some(p) => Some(p@),
                None => None,
            },
            root@,
        ),
{
    match repo_override {
        Some(p) => owned(p),
        None => reims_vgpu_path(root),
    }
}

/// The file whose presence shows that OSX-KVM is installed.
pub open spec fn spec_osx_kvm_marker(root: Seq<char>) -> Seq<char> {
    path_join(spec_osx_kvm_path(root), "fetch-macOS-v2.py"@)
}

pub fn osx_kvm_marker(root: &str) -> (r: String)
    ensures
        r@ == spec_osx_kvm_marker(root@),
{
    let p = osx_kvm_path(root);
    join_path(p.as_str(), "fetch-macOS-v2.py")
}

/// The file whose presence shows that reims-vGPU is installed.
pub open spec fn spec_reims_vgpu_marker(root: Seq<char>) -> Seq<char> {
    path_join(path_join(spec_reims_vgpu_path(root), "vm"@), "boot-x86.sh"@)
}

pub fn reims_vgpu_marker(root: &str) -> (r: String)
    ensures
        r@ == spec_reims_vgpu_marker(root@),
{
    let p = reims_vgpu_path(root);
    let vm = join_path(p.as_str(), "vm");
    join_path(vm.as_str(), "boot-x86.sh")
}

/// What is known to be on disk: the paths that name regular files, and the
/// paths that exist but are not regular files (directories and the like).
/// A path in neither list is taken not to exist.
pub struct Disk {
    pub files: Vec<String>,
    pub others: Vec<String>,
}

pub open spec fn string_views(v: Seq<String>) -> Seq<Seq<char>> {
    v.map_values(|s: String| s@)
}

impl Disk {
    pub open spec fn spec_is_file(&self, p: Seq<char>) -> bool {
        string_views(self.files@).contains(p)
    }

    pub open spec fn spec_has(&self, p: Seq<char>) -> bool {
        string_views(self.files@).contains(p) || string_views(self.others@).contains(p)
    }

    /// Nothing known to exist.
    pub fn new() -> (d: Disk)
        ensures
            forall|p: Seq<char>| !d.spec_has(p),
    {
        let d = Disk { files: Vec::new(), others: Vec::new() };
        assert(string_views(d.files@) =~= Seq::<Seq<char>>::empty());
        assert(string_views(d.others@) =~= Seq::<Seq<char>>::empty());
        d
    }

    /// Records that `p` is a regular file.
    pub fn add_file(&mut self, p: String)
        ensures
            string_views(final(self).files@) == string_views(old(self).files@).push(p@),
            final(self).others@ == old(self).others@,
    {
        let ghost v = p@;
        self.files.push(p);
        assert(string_views(self.files@) =~= string_views(old(self).files@).push(v));
    }

    /// Records that `p` exists and is not a regular file.
    pub fn add_other(&mut self, p: String)
        ensures
            string_views(final(self).others@) == string_views(old(self).others@).push(p@),
            final(self).files@ == old(self).files@,
    {
        let ghost v = p@;
        self.others.push(p);
        assert(string_views(self.others@) =~= string_views(old(self).others@).push(v));
    }

    /// Whether `p` is known to be a regular file.
    pub fn is_file(&self, p: &str) -> (r: bool)
        ensures
            r == self.spec_is_file(p@),
    {
        list_contains(&self.files, p)
    }

    /// Whether `p` is known to exist.
    pub fn has(&self, p: &str) -> (r: bool)
        ensures
            r == self.spec_has(p@),
    {
        list_contains(&self.files, p) || list_contains(&self.others, p)
    }
}

/// Whether one of the strings equals `p`.
pub fn list_contains(v: &Vec<String>, p: &str) -> (r: bool)
    ensures
        r == string_views(v@).contains(p@),
{
    let mut i: usize = 0;
    while i < v.len()
        invariant
            0 <= i <= v@.len(),
            forall|j: int| 0 <= j < i ==> v@[j]@ != p@,
        decreases v@.len() - i,
    {
        if str_eq(v[i].as_str(), p) {
            assert(string_views(v@)[i as int] == p@);
            return true;
        }
        i = i + 1;
    }
    assert forall|j: int| 0 <= j < string_views(v@).len() implies string_views(v@)[j] != p@ by {
        assert(string_views(v@)[j] == v@[j]@);
    }
    false
}

/// Whether OSX-KVM is installed under the download root: its
/// `fetch-macOS-v2.py` is a regular file.
pub fn osx_kvm_installed(root: &str, disk: &Disk) -> (r: bool)
    ensures
        r == disk.spec_is_file(spec_osx_kvm_marker(root@)),
{
    let m = osx_kvm_marker(root);
    disk.is_file(m.as_str())
}

/// Whether reims-vGPU is installed under the download root: its
/// `vm/boot-x86.sh` is a regular file.
pub fn reims_vgpu_installed(root: &str, disk: &Disk) -> (r: bool)
    ensures
        r == disk.spec_is_file(spec_reims_vgpu_marker(root@)),
{
    let m = reims_vgpu_marker(root);
    disk.is_file(m.as_str())
}


/// What std's `Path::parent` gives for a path: the path without its final
/// component, if it has one.
pub uninterp spec fn path_parent_of(p: Seq<char>) -> Option<Seq<char>>;

/// Calls std's `Path::parent`. Trusted: the result is `path_parent_of` of
/// the path; nothing more is claimed of it.
#[verifier::external_body]
pub(crate) fn path_parent(p: &str) -> (r: Option<String>)
    ensures
        match r {
            Some(q) => path_parent_of(p@) == Some(q@),
            None => path_parent_of(p@) is None,
        },
{
    match std::path::Path::new(p).parent() {
        Some(q) => Some(q.to_string_lossy().into_owned()),
        None => None,
    }
}


/// What std's `Path::with_extension` gives for a path and an extension.
pub uninterp spec fn path_with_extension_of(p: Seq<char>, ext: Seq<char>) -> Seq<char>;

/// Calls std's `Path::with_extension`. Trusted: the result is
/// `path_with_extension_of` of the path and the extension; nothing more is
/// claimed of it. std panics when the extension holds a path separator, so
/// such an extension is not admitted.
#[verifier::external_body]
pub(crate) fn path_with_extension(p: &str, ext: &str) -> (r: String)
    requires
        !ext@.contains('/'),
        !ext@.contains('\\'),
    ensures
        r@ == path_with_extension_of(p@, ext@),
{
    std::path::Path::new(p).with_extension(ext).to_string_lossy().into_owned()
}

} // verus!
