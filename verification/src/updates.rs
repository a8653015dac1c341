//! Keeping the GUI and the reims-vGPU checkout up to date.
use vstd::prelude::*;
use crate::command::{
    make_job, resolve_report, CommandSpec, CommandView, Job, JobView, Output, OutputView, Poll,
    Report, RunResult, report_fits, spec_after_report,
};
use crate::paths::{
    join_path, path_join, path_with_extension, path_with_extension_of, reims_vgpu_path,
    spec_reims_vgpu_path, Disk,
};
use crate::text::{cat, cat3, chars_of, first_word, first_word_str, owned, str_eq, trim, trim_str};
use crate::versions::{
    latest_version_from_tags, parse_version, spec_latest_tag, spec_parse_version, version_before,
    version_lt,
};

verus! {

/// Where the GUI's releases are published.
pub open spec fn gui_repo() -> Seq<char> {
    "https://github.com/Sealsosealy/reims-vgpu-gui.git"@
}

/// The upstream reims-vGPU repository.
pub open spec fn reims_repo() -> Seq<char> {
    "https://github.com/steelbrain/reims-vgpu.git"@
}

/// The shell script that downloads a release over the running GUI.
pub open spec fn updater_script() -> Seq<char> {
    "set -e; curl -fL --retry 3 \"$1\" -o \"$2\"; chmod +x \"$2\"; mv -f \"$2\" \"$3\""@
}

/// The state of both update checks and updates.
pub struct Updates {
    pub gui_latest: String,
    pub gui_status: String,
    pub gui_available: bool,
    pub gui_checking: bool,
    pub gui_installing: bool,
    pub reims_local: String,
    pub reims_remote: String,
    pub reims_status: String,
    pub reims_available: bool,
    pub reims_checking: bool,
    pub reims_updating: bool,
}

/// The release tags of the GUI.
pub open spec fn gui_tags_command() -> CommandView {
    CommandView {
        program: "git"@,
        args: seq!["ls-remote"@, "--tags"@, "--refs"@, gui_repo()],
        cwd: None,
        env: Seq::empty(),
        output: OutputView::CaptureStdout,
    }
}

/// The commit checked out in reims-vGPU.
pub open spec fn local_commit_command(repo: Seq<char>) -> CommandView {
    CommandView {
        program: "git"@,
        args: seq!["-C"@, repo, "rev-parse"@, "HEAD"@],
        cwd: None,
        env: Seq::empty(),
        output: OutputView::Inherit,
    }
}

/// The upstream reims-vGPU commit.
pub open spec fn remote_commit_command() -> CommandView {
    CommandView {
        program: "git"@,
        args: seq!["ls-remote"@, reims_repo(), "refs/heads/master"@],
        cwd: None,
        env: Seq::empty(),
        output: OutputView::CaptureStdout,
    }
}

/// The work that replaces the running GUI `exe` with release `latest`.
pub open spec fn gui_update_job(latest: Seq<char>, exe: Seq<char>) -> JobView {
    JobView {
        steps: Seq::empty(),
        spawn: Some(
            CommandView {
                program: "sh"@,
                args: seq![
                    "-c"@,
                    updater_script(),
                    "reims-vgpu-gui-updater"@,
                    "https://github.com/Sealsosealy/reims-vgpu-gui/releases/download/"@ + latest
                        + "/reims-vgpu-gui"@,
                    path_with_extension_of(exe, "update"@),
                    exe,
                ],
                cwd: None,
                env: Seq::empty(),
                output: OutputView::Inherit,
            },
        ),
        on_done: Some("Downloading GUI "@ + latest + "..."@),
        on_spawn_error: "Could not start GUI updater: "@,
    }
}

/// The work that fast-forwards the reims-vGPU checkout `repo`.
pub open spec fn reims_update_job(repo: Seq<char>) -> JobView {
    JobView {
        steps: Seq::empty(),
        spawn: Some(
            CommandView {
                program: "git"@,
                args: seq!["-C"@, repo, "pull"@, "--ff-only"@, reims_repo(), "master"@],
                cwd: None,
                env: Seq::empty(),
                output: OutputView::Discard,
            },
        ),
        on_done: Some("Updating reims-vGPU with a fast-forward-only pull..."@),
        on_spawn_error: "Could not start reims-vGPU update: "@,
    }
}

/// The shortest prefix of a commit id shown: as many characters as fit in
/// `budget` bytes of UTF-8.
pub open spec fn utf8_len(c: char) -> nat {
    if (c as u32) < 0x80 {
        1
    } else if (c as u32) < 0x800 {
        2
    } else if (c as u32) < 0x10000 {
        3
    } else {
        4
    }
}

pub open spec fn prefix_within(s: Seq<char>, budget: nat) -> Seq<char>
    decreases s.len(),
{
    if s.len() == 0 || utf8_len(s[0]) > budget {
        Seq::empty()
    } else {
        seq![s[0]] + prefix_within(s.drop_first(), (budget - utf8_len(s[0])) as nat)
    }
}

/// The first 12 bytes of a commit id, as far as they hold whole characters.
pub fn short_commit(commit: &str) -> (r: String)
    ensures
        r@ == prefix_within(commit@, 12),
{
    let v = chars_of(commit);
    let mut out: Vec<char> = Vec::new();
    let mut budget: u32 = 12;
    let mut i: usize = 0;
    let mut full = false;
    assert(v@.skip(0) =~= v@);
    assert(out@ + prefix_within(v@, 12) =~= prefix_within(v@, 12));
    while i < v.len() && !full
        invariant
            0 <= i <= v@.len(),
            budget <= 12,
            out@ + prefix_within(v@.skip(i as int), budget as nat) == prefix_within(v@, 12),
            full ==> prefix_within(v@.skip(i as int), budget as nat) == Seq::<char>::empty(),
        decreases v@.len() - i, if full { 0int } else { 1int },
    {
        let c = v[i];
        let n = c as u32;
        let w: u32 = if n < 0x80 {
            1
        } else if n < 0x800 {
            2
        } else if n < 0x10000 {
            3
        } else {
            4
        };
        let ghost rest = v@.skip(i as int);
        assert(rest[0] == c);
        assert(rest.drop_first() =~= v@.skip(i + 1));
        if w > budget {
            assert(prefix_within(rest, budget as nat) =~= Seq::<char>::empty());
            full = true;
        } else {
            let ghost before = out@;
            out.push(c);
            budget = budget - w;
            assert(before + prefix_within(rest, (budget + w) as nat) =~= out@ + prefix_within(
                v@.skip(i + 1),
                budget as nat,
            ));
            i = i + 1;
        }
    }
    proof {
        if !full {
            assert(v@.skip(i as int) =~= Seq::<char>::empty());
        }
        assert(out@ + Seq::<char>::empty() =~= out@);
    }
    string_of(out)
}

fn string_of(v: Vec<char>) -> (s: String)
    ensures
        s@ == v@,
{
    crate::text::string_from_chars(v.as_slice())
}

impl Updates {
    pub fn new() -> (u: Updates)
        ensures
            u.gui_latest@ == Seq::<char>::empty(),
            u.gui_status@ == "Not checked"@,
            !u.gui_available && !u.gui_checking && !u.gui_installing,
            u.reims_local@ == Seq::<char>::empty(),
            u.reims_remote@ == Seq::<char>::empty(),
            u.reims_status@ == "Not checked"@,
            !u.reims_available && !u.reims_checking && !u.reims_updating,
    {
        Updates {
            gui_latest: String::new(),
            gui_status: owned("Not checked"),
            gui_available: false,
            gui_checking: false,
            gui_installing: false,
            reims_local: String::new(),
            reims_remote: String::new(),
            reims_status: owned("Not checked"),
            reims_available: false,
            reims_checking: false,
            reims_updating: false,
        }
    }

    /// Starts both update checks: unless one is running already, both
    /// statuses say that they check and no update is available; returns the
    /// command that lists the GUI's release tags, to start in the background.
    pub fn check_updates(&mut self) -> (c: Option<CommandSpec>)
        ensures
            old(self).gui_checking || old(self).reims_checking ==> c is None && *final(self) == *old(self),
            !(old(self).gui_checking || old(self).reims_checking) ==> {
                &&& c matches Some(c) && c@ == gui_tags_command()
                &&& *final(self) == (Updates {
                    gui_status: final(self).gui_status,
                    reims_status: final(self).reims_status,
                    gui_available: false,
                    reims_available: false,
                    ..*old(self)
                })
                &&& final(self).gui_status@ == "Checking for GUI updates..."@
                &&& final(self).reims_status@ == "Checking reims-vGPU..."@
            },
    {
        if self.gui_checking || self.reims_checking {
            return None;
        }
        self.gui_status = owned("Checking for GUI updates...");
        self.reims_status = owned("Checking reims-vGPU...");
        self.gui_available = false;
        self.reims_available = false;
        let mut c = CommandSpec::new("git");
        c.arg("ls-remote");
        c.arg("--tags");
        c.arg("--refs");
        c.arg("https://github.com/Sealsosealy/reims-vgpu-gui.git");
        c.set_output(Output::CaptureStdout);
        assert(c@.args =~= gui_tags_command().args);
        Some(c)
    }

    /// Records whether the GUI's tag listing started (or why not).
    pub fn gui_check_started(&mut self, started: Result<(), String>)
        ensures
            match started {
                Ok(_) => *final(self) == (Updates { gui_checking: true, ..*old(self) }),
                Err(e) => *final(self) == (Updates { gui_status: final(self).gui_status, ..*old(self) })
                    && final(self).gui_status@ == "Could not check GUI updates: "@ + e@,
            },
    {
        match started {
            Ok(_) => {
                self.gui_checking = true;
            },
            Err(e) => {
                self.gui_status = cat("Could not check GUI updates: ", e.as_str());
            },
        }
    }

    /// The next part of the reims-vGPU check: when the checkout under the
    /// download root is a Git checkout (`disk` must tell whether its `.git`
    /// exists), the command that reads its commit, to run to completion;
    /// otherwise the status says so and the check ends.
    pub fn reims_check_plan(&mut self, root: &str, disk: &Disk) -> (c: Option<CommandSpec>)
        ensures
            disk.spec_has(path_join(spec_reims_vgpu_path(root@), ".git"@)) ==> *final(self) == *old(self)
                && (c matches Some(c) && c@ == local_commit_command(spec_reims_vgpu_path(root@))),
            !disk.spec_has(path_join(spec_reims_vgpu_path(root@), ".git"@)) ==> c is None
                && *final(self) == (Updates { reims_status: final(self).reims_status, ..*old(self) })
                && final(self).reims_status@ == "reims-vGPU repository is not a Git checkout."@,
    {
        let repo = reims_vgpu_path(root);
        let git = join_path(repo.as_str(), ".git");
        if !disk.has(git.as_str()) {
            self.reims_status = owned("reims-vGPU repository is not a Git checkout.");
            return None;
        }
        let mut c = CommandSpec::new("git");
        c.arg("-C");
        c.arg(repo.as_str());
        c.arg("rev-parse");
        c.arg("HEAD");
        assert(c@.args =~= seq!["-C"@, repo@, "rev-parse"@, "HEAD"@]);
        Some(c)
    }

    /// Records the local commit (or why it could not be read) and returns
    /// the command that reads the upstream commit, to start in the background.
    pub fn local_commit_read(&mut self, result: RunResult) -> (c: CommandSpec)
        ensures
            c@ == remote_commit_command(),
            match result {
                RunResult::Ran { success, stdout, stderr } => if success {
                    *final(self) == (Updates { reims_local: final(self).reims_local, ..*old(self) })
                        && final(self).reims_local@ == trim(stdout@)
                } else {
                    *final(self) == (Updates { reims_status: final(self).reims_status, ..*old(self) })
                        && final(self).reims_status@ == "Could not read local reims-vGPU commit: "@ + trim(
                        stderr@,
                    )
                },
                RunResult::NotRun(e) => *final(self) == (Updates {
                    reims_status: final(self).reims_status,
                    ..*old(self)
                }) && final(self).reims_status@ == "Could not read local reims-vGPU commit: "@ + e@,
            },
    {
        match result {
            RunResult::Ran { success, stdout, stderr } => {
                if success {
                    self.reims_local = trim_str(stdout.as_str());
                } else {
                    let t = trim_str(stderr.as_str());
                    self.reims_status = cat("Could not read local reims-vGPU commit: ", t.as_str());
                }
            },
            RunResult::NotRun(e) => {
                self.reims_status = cat("Could not read local reims-vGPU commit: ", e.as_str());
            },
        }
        let mut c = CommandSpec::new("git");
        c.arg("ls-remote");
        c.arg("https://github.com/steelbrain/reims-vgpu.git");
        c.arg("refs/heads/master");
        c.set_output(Output::CaptureStdout);
        assert(c@.args =~= remote_commit_command().args);
        c
    }

    /// Records whether the upstream commit listing started (or why not).
    pub fn reims_check_started(&mut self, started: Result<(), String>)
        ensures
            match started {
                Ok(_) => *final(self) == (Updates { reims_checking: true, ..*old(self) }),
                Err(e) => *final(self) == (Updates { reims_status: final(self).reims_status, ..*old(self) })
                    && final(self).reims_status@ == "Could not check reims-vGPU updates: "@ + e@,
            },
    {
        match started {
            Ok(_) => {
                self.reims_checking = true;
            },
            Err(e) => {
                self.reims_status = cat("Could not check reims-vGPU updates: ", e.as_str());
            },
        }
    }

    /// Looks at the running tag listing of the GUI. `output` is what it
    /// printed (empty when that could not be read) and `current` the running
    /// GUI's version. Returns whether the window should be drawn again soon.
    pub fn update_gui_check(&mut self, poll: Poll, output: &str, current: &str) -> (repaint: bool)
        ensures
            !old(self).gui_checking ==> !repaint && *final(self) == *old(self),
            old(self).gui_checking ==> match poll {
                Poll::Running => repaint && *final(self) == *old(self),
                Poll::Exited { success, .. } => {
                    &&& !repaint
                    &&& *final(self) == (Updates {
                        gui_checking: false,
                        gui_status: final(self).gui_status,
                        gui_latest: final(self).gui_latest,
                        gui_available: final(self).gui_available,
                        ..*old(self)
                    })
                    &&& if !success {
                        final(self).gui_status@ == "Could not reach the GUI update source."@
                            && final(self).gui_latest == old(self).gui_latest
                            && final(self).gui_available == old(self).gui_available
                    } else {
                        match spec_latest_tag(output@) {
                            None => final(self).gui_status@ == "No stable GUI release tags were found."@
                                && final(self).gui_latest == old(self).gui_latest
                                && final(self).gui_available == old(self).gui_available,
                            Some(latest) => final(self).gui_latest@ == latest && match (
                                spec_parse_version(current@),
                                spec_parse_version(latest),
                            ) {
                                (Some(c), Some(l)) => if version_lt(c, l) {
                                    final(self).gui_available && final(self).gui_status@
                                        == "Update available: "@ + latest
                                } else {
                                    final(self).gui_available == old(self).gui_available
                                        && final(self).gui_status@ == "GUI is up to date ("@ + current@
                                        + ")"@
                                },
                                _ => final(self).gui_available == old(self).gui_available
                                    && final(self).gui_status@ == "Latest GUI release: "@ + latest,
                            },
                        }
                    }
                },
                Poll::Failed(e) => !repaint && *final(self) == (Updates {
                    gui_checking: false,
                    gui_status: final(self).gui_status,
                    ..*old(self)
                }) && final(self).gui_status@ == "Failed to check GUI update: "@ + e@,
            },
    {
        if !self.gui_checking {
            return false;
        }
        match poll {
            Poll::Running => true,
            Poll::Exited { success, .. } => {
                self.gui_checking = false;
                if !success {
                    self.gui_status = owned("Could not reach the GUI update source.");
                    return false;
                }
                let latest = match latest_version_from_tags(output) {
                    Some(l) => l,
                    None => {
                        self.gui_status = owned("No stable GUI release tags were found.");
                        return false;
                    },
                };
                self.gui_latest = latest.clone();
                match (parse_version(current), parse_version(latest.as_str())) {
                    (Some(c), Some(l)) => {
                        if version_before(c, l) {
                            self.gui_available = true;
                            self.gui_status = cat("Update available: ", latest.as_str());
                        } else {
                            self.gui_status = cat3("GUI is up to date (", current, ")");
                        }
                    },
                    _ => {
                        self.gui_status = cat("Latest GUI release: ", latest.as_str());
                    },
                }
                false
            },
            Poll::Failed(e) => {
                self.gui_status = cat("Failed to check GUI update: ", e.as_str());
                self.gui_checking = false;
                false
            },
        }
    }

    /// Looks at the running listing of the upstream commit; `output` is
    /// what it printed (empty when that could not be read). Returns whether
    /// the window should be drawn again soon.
    pub fn update_reims_check(&mut self, poll: Poll, output: &str) -> (repaint: bool)
        ensures
            !old(self).reims_checking ==> !repaint && *final(self) == *old(self),
            old(self).reims_checking ==> match poll {
                Poll::Running => repaint && *final(self) == *old(self),
                Poll::Exited { success, .. } => {
                    &&& !repaint
                    &&& *final(self) == (Updates {
                        reims_checking: false,
                        reims_status: final(self).reims_status,
                        reims_remote: final(self).reims_remote,
                        reims_available: final(self).reims_available,
                        ..*old(self)
                    })
                    &&& if !success {
                        final(self).reims_status@ == "Could not reach the reims-vGPU repository."@
                            && final(self).reims_remote == old(self).reims_remote
                            && final(self).reims_available == old(self).reims_available
                    } else {
                        match first_word(output@) {
                            None => final(self).reims_status@
                                == "The upstream reims-vGPU commit could not be read."@
                                && final(self).reims_remote == old(self).reims_remote
                                && final(self).reims_available == old(self).reims_available,
                            Some(remote) => {
                                &&& final(self).reims_remote@ == remote
                                &&& final(self).reims_available == (old(self).reims_local@ != remote)
                                &&& final(self).reims_status@ == if old(self).reims_local@ == remote {
                                    "reims-vGPU is up to date."@
                                } else {
                                    "A newer reims-vGPU commit is available."@
                                }
                            },
                        }
                    }
                },
                Poll::Failed(e) => !repaint && *final(self) == (Updates {
                    reims_checking: false,
                    reims_status: final(self).reims_status,
                    ..*old(self)
                }) && final(self).reims_status@ == "Failed to check reims-vGPU update: "@ + e@,
            },
    {
        if !self.reims_checking {
            return false;
        }
        match poll {
            Poll::Running => true,
            Poll::Exited { success, .. } => {
                self.reims_checking = false;
                if !success {
                    self.reims_status = owned("Could not reach the reims-vGPU repository.");
                    return false;
                }
                let remote = match first_word_str(output) {
                    Some(w) => w,
                    None => {
                        self.reims_status = owned("The upstream reims-vGPU commit could not be read.");
                        return false;
                    },
                };
                if str_eq(self.reims_local.as_str(), remote.as_str()) {
                    self.reims_status = owned("reims-vGPU is up to date.");
                    self.reims_available = false;
                } else {
                    self.reims_status = owned("A newer reims-vGPU commit is available.");
                    self.reims_available = true;
                }
                self.reims_remote = remote;
                false
            },
            Poll::Failed(e) => {
                self.reims_status = cat("Failed to check reims-vGPU update: ", e.as_str());
                self.reims_checking = false;
                false
            },
        }
    }

    /// Decides how to install the newer GUI release over the running one.
    /// `debug_build` says whether this is a debug build (which does not
    /// update itself); `exe` is the running GUI's path, or why it is unknown.
    pub fn install_gui_update(&mut self, debug_build: bool, exe: Result<&str, &str>) -> (job: Option<Job>)
        ensures
            *final(self) == (Updates { gui_status: final(self).gui_status, ..*old(self) }),
            old(self).gui_installing ==> job is None && final(self).gui_status == old(self).gui_status,
            !old(self).gui_installing ==> if debug_build {
                job is None && final(self).gui_status@
                    == "Self-update is disabled in debug builds. Build a release binary first."@
            } else if !old(self).gui_available {
                job is None && final(self).gui_status@ == "No GUI update is available."@
            } else {
                match exe {
                    Err(e) => job is None && final(self).gui_status@ == "Could not find the running GUI: "@ + e@,
                    Ok(p) => final(self).gui_status == old(self).gui_status && (job matches Some(j) && j@
                        == gui_update_job(old(self).gui_latest@, p@)),
                }
            },
    {
        if self.gui_installing {
            return None;
        }
        if debug_build {
            self.gui_status = owned("Self-update is disabled in debug builds. Build a release binary first.");
            return None;
        }
        if !self.gui_available {
            self.gui_status = owned("No GUI update is available.");
            return None;
        }
        let exe = match exe {
            Ok(p) => p,
            Err(e) => {
                self.gui_status = cat("Could not find the running GUI: ", e);
                return None;
            },
        };
        let url = cat3(
            "https://github.com/Sealsosealy/reims-vgpu-gui/releases/download/",
            self.gui_latest.as_str(),
            "/reims-vgpu-gui",
        );
        proof {
            reveal_strlit("update");
            assert forall|i: int| 0 <= i < "update"@.len() implies #[trigger] "update"@[i] != '/'
                && "update"@[i] != '\\' by {}
        }
        let temp = path_with_extension(exe, "update");
        let mut c = CommandSpec::new("sh");
        c.arg("-c");
        c.arg("set -e; curl -fL --retry 3 \"$1\" -o \"$2\"; chmod +x \"$2\"; mv -f \"$2\" \"$3\"");
        c.arg("reims-vgpu-gui-updater");
        c.arg(url.as_str());
        c.arg(temp.as_str());
        c.arg(exe);
        assert(c@.args =~= gui_update_job(self.gui_latest@, exe@).spawn->0.args);
        let done = cat3("Downloading GUI ", self.gui_latest.as_str(), "...");
        let j = make_job(Vec::new(), Some(c), Some(done), "Could not start GUI updater: ");
        assert(j@.steps =~= Seq::empty());
        Some(j)
    }

    /// Records what became of the GUI update job.
    pub fn gui_install_reported(&mut self, job: &Job, report: Report)
        requires
            report_fits(job@, report),
        ensures
            (final(self).gui_status@, final(self).gui_installing) == spec_after_report(
                old(self).gui_status@,
                old(self).gui_installing,
                job@,
                report,
            ),
            *final(self) == (Updates {
                gui_status: final(self).gui_status,
                gui_installing: final(self).gui_installing,
                ..*old(self)
            }),
    {
        let (s, r) = resolve_report(&self.gui_status, self.gui_installing, job, &report);
        self.gui_status = s;
        self.gui_installing = r;
    }

    /// Looks at the running GUI updater. Returns whether the window should be
    /// drawn again soon.
    pub fn update_gui_install(&mut self, poll: Poll) -> (repaint: bool)
        ensures
            !old(self).gui_installing ==> !repaint && *final(self) == *old(self),
            old(self).gui_installing ==> match poll {
                Poll::Running => repaint && *final(self) == *old(self),
                Poll::Exited { success, .. } => !repaint && if success {
                    *final(self) == (Updates {
                        gui_installing: false,
                        gui_available: false,
                        gui_status: final(self).gui_status,
                        ..*old(self)
                    }) && final(self).gui_status@
                        == "Update installed. Restart the GUI to use the new version."@
                } else {
                    *final(self) == (Updates {
                        gui_installing: false,
                        gui_status: final(self).gui_status,
                        ..*old(self)
                    }) && final(self).gui_status@
                        == "GUI update failed. The current version was left in place."@
                },
                Poll::Failed(e) => !repaint && *final(self) == (Updates {
                    gui_installing: false,
                    gui_status: final(self).gui_status,
                    ..*old(self)
                }) && final(self).gui_status@ == "Failed to check GUI updater: "@ + e@,
            },
    {
        if !self.gui_installing {
            return false;
        }
        match poll {
            Poll::Running => true,
            Poll::Exited { success, .. } => {
                self.gui_installing = false;
                if success {
                    self.gui_status = owned("Update installed. Restart the GUI to use the new version.");
                    self.gui_available = false;
                } else {
                    self.gui_status = owned("GUI update failed. The current version was left in place.");
                }
                false
            },
            Poll::Failed(e) => {
                self.gui_status = cat("Failed to check GUI updater: ", e.as_str());
                self.gui_installing = false;
                false
            },
        }
    }

    /// Decides how to update the reims-vGPU checkout under the download root.
    pub fn update_reims_vgpu(&mut self, root: &str) -> (job: Option<Job>)
        ensures
            *final(self) == (Updates { reims_status: final(self).reims_status, ..*old(self) }),
            old(self).reims_updating ==> job is None && final(self).reims_status == old(self).reims_status,
            !old(self).reims_updating && !old(self).reims_available ==> job is None
                && final(self).reims_status@ == "No reims-vGPU update is available."@,
            !old(self).reims_updating && old(self).reims_available ==> final(self).reims_status
                == old(self).reims_status && (job matches Some(j) && j@ == reims_update_job(
                spec_reims_vgpu_path(root@),
            )),
    {
        if self.reims_updating {
            return None;
        }
        if !self.reims_available {
            self.reims_status = owned("No reims-vGPU update is available.");
            return None;
        }
        let repo = reims_vgpu_path(root);
        let mut c = CommandSpec::new("git");
        c.arg("-C");
        c.arg(repo.as_str());
        c.arg("pull");
        c.arg("--ff-only");
        c.arg("https://github.com/steelbrain/reims-vgpu.git");
        c.arg("master");
        c.set_output(Output::Discard);
        assert(c@.args =~= reims_update_job(repo@).spawn->0.args);
        let j = make_job(
            Vec::new(),
            Some(c),
            Some(owned("Updating reims-vGPU with a fast-forward-only pull...")),
            "Could not start reims-vGPU update: ",
        );
        assert(j@.steps =~= Seq::empty());
        Some(j)
    }

    /// Records what became of the reims-vGPU update job.
    pub fn reims_update_reported(&mut self, job: &Job, report: Report)
        requires
            report_fits(job@, report),
        ensures
            (final(self).reims_status@, final(self).reims_updating) == spec_after_report(
                old(self).reims_status@,
                old(self).reims_updating,
                job@,
                report,
            ),
            *final(self) == (Updates {
                reims_status: final(self).reims_status,
                reims_updating: final(self).reims_updating,
                ..*old(self)
            }),
    {
        let (s, r) = resolve_report(&self.reims_status, self.reims_updating, job, &report);
        self.reims_status = s;
        self.reims_updating = r;
    }

    /// Looks at the running reims-vGPU update. Returns whether the window
    /// should be drawn again soon.
    pub fn update_reims_install(&mut self, poll: Poll) -> (repaint: bool)
        ensures
            !old(self).reims_updating ==> !repaint && *final(self) == *old(self),
            old(self).reims_updating ==> match poll {
                Poll::Running => repaint && *final(self) == *old(self),
                Poll::Exited { success, .. } => !repaint && if success {
                    *final(self) == (Updates {
                        reims_updating: false,
                        reims_available: false,
                        reims_status: final(self).reims_status,
                        ..*old(self)
                    }) && final(self).reims_status@
                        == "reims-vGPU updated successfully. Run the check again to verify the commit."@
                } else {
                    *final(self) == (Updates {
                        reims_updating: false,
                        reims_status: final(self).reims_status,
                        ..*old(self)
                    }) && final(self).reims_status@
                        == "reims-vGPU update failed. Local changes may prevent a fast-forward."@
                },
                Poll::Failed(e) => !repaint && *final(self) == (Updates {
                    reims_updating: false,
                    reims_status: final(self).reims_status,
                    ..*old(self)
                }) && final(self).reims_status@ == "Failed to check reims-vGPU updater: "@ + e@,
            },
    {
        if !self.reims_updating {
            return false;
        }
        match poll {
            Poll::Running => true,
            Poll::Exited { success, .. } => {
                self.reims_updating = false;
                if success {
                    self.reims_status = owned(
                        "reims-vGPU updated successfully. Run the check again to verify the commit.",
                    );
                    self.reims_available = false;
                } else {
                    self.reims_status = owned(
                        "reims-vGPU update failed. Local changes may prevent a fast-forward.",
                    );
                }
                false
            },
            Poll::Failed(e) => {
                self.reims_status = cat("Failed to check reims-vGPU updater: ", e.as_str());
                self.reims_updating = false;
                false
            },
        }
    }
}


/// The bytes that a character takes in UTF-8.
pub open spec fn utf8_size(s: Seq<char>) -> nat
    decreases s.len(),
{
    if s.len() == 0 {
        0
    } else {
        utf8_len(s[0]) + utf8_size(s.drop_first())
    }
}

/// The shortened commit is a prefix of the commit that takes at most
/// `budget` bytes.
pub proof fn lemma_prefix_within(s: Seq<char>, budget: nat)
    ensures
        prefix_within(s, budget).len() <= s.len(),
        prefix_within(s, budget) == s.take(prefix_within(s, budget).len() as int),
        utf8_size(prefix_within(s, budget)) <= budget,
    decreases s.len(),
{
    if s.len() == 0 || utf8_len(s[0]) > budget {
        assert(s.take(0) =~= Seq::<char>::empty());
    } else {
        let rest = s.drop_first();
        let b = (budget - utf8_len(s[0])) as nat;
        lemma_prefix_within(rest, b);
        let p = prefix_within(s, budget);
        let q = prefix_within(rest, b);
        assert(p =~= seq![s[0]] + q);
        assert(p =~= s.take(p.len() as int));
        assert(p.drop_first() =~= q);
    }
}

} // verus!
