//! Downloading a macOS recovery image with OSX-KVM's `fetch-macOS-v2.py`,
//! and following its progress in the downloader's log.
use vstd::prelude::*;
use crate::catalog::{recovery_params, spec_recovery_params};
use crate::command::{
    make_job, push_step, step, step_view, step_views, Action, ActionView, CommandSpec,
    CommandView, Job, JobView, Output, OutputView, Poll, Report, Step, StepView, report_fits,
    spec_after_report, resolve_report, Task,
};
use crate::paths::{
    join_path, macos_download_path, osx_kvm_marker, path_join, spec_macos_download_path,
    spec_osx_kvm_marker, Disk,
};
use crate::text::{
    cat, cat3, chars_of, lines, lines_chars, owned, string_from_chars, strip_prefix,
    strip_prefix_chars, trim, trim_chars, trim_end_by, trim_end_chars, views, CharClass,
};

verus! {

/// The recovery-image download: its status, whether the downloader runs,
/// the Apple product it reported, and its log file.
pub struct Download {
    pub task: Task,
    pub product: String,
    pub log_path: Option<String>,
}

/// Where the downloader writes its log.
pub open spec fn download_log(root: Seq<char>, version: Seq<char>) -> Seq<char> {
    path_join(spec_macos_download_path(root, version), "download.log"@)
}

/// The downloader run for a macOS version.
pub open spec fn download_command(root: Seq<char>, version: Seq<char>, p: (Seq<char>, Seq<char>, Seq<char>)) -> CommandView {
    CommandView {
        program: "python3"@,
        args: seq![
            spec_osx_kvm_marker(root),
            "--action"@,
            "download"@,
            "--board-id"@,
            p.0,
            "--mlb"@,
            p.1,
            "--os-type"@,
            p.2,
            "--outdir"@,
            spec_macos_download_path(root, version),
        ],
        cwd: None,
        env: Seq::empty(),
        output: OutputView::Log(download_log(root, version)),
    }
}

/// The work that starts a download: create the output directory and the
/// log, then start the downloader.
pub open spec fn download_job(root: Seq<char>, version: Seq<char>, p: (Seq<char>, Seq<char>, Seq<char>)) -> JobView {
    JobView {
        steps: seq![
            step_view(
                ActionView::CreateDirAll(spec_macos_download_path(root, version)),
                "Could not create download directory: "@,
                ""@,
            ),
            step_view(
                ActionView::CreateLog(download_log(root, version)),
                "Could not create downloader log: "@,
                "Could not prepare downloader log: "@,
            ),
        ],
        spawn: Some(download_command(root, version, p)),
        on_done: Some("Downloading "@ + version + "..."@),
        on_spawn_error: "Could not start fetch-macOS-v2.py: "@,
    }
}

/// The log file that a job's process writes to, if any.
pub open spec fn job_log(job: JobView) -> Option<Seq<char>> {
    match job.spawn {
        Some(c) => match c.output {
            OutputView::Log(p) => Some(p),
            _ => None,
        },
        None => None,
    }
}

/// The Apple product named by one line of the downloader's log: the text
/// after `Downloading ` on a trimmed line, trimmed, without trailing dots,
/// if that leaves anything.
pub open spec fn product_of_line(line: Seq<char>) -> Option<Seq<char>> {
    match strip_prefix(trim(line), "Downloading "@) {
        Some(p) => {
            let q = trim_end_by(trim(p), CharClass::Exactly('.'));
            if q.len() > 0 {
                Some(q)
            } else {
                None
            }
        },
        None => None,
    }
}

/// The product named by the last line that names one.
pub open spec fn last_product(ls: Seq<Seq<char>>) -> Option<Seq<char>>
    decreases ls.len(),
{
    if ls.len() == 0 {
        None
    } else {
        match product_of_line(ls.last()) {
            Some(p) => Some(p),
            None => last_product(ls.drop_last()),
        }
    }
}

/// The status while the downloader fetches a product.
pub open spec fn fetching_status(version: Seq<char>, product: Seq<char>) -> Seq<char> {
    "Downloading "@ + version + " — Apple recovery "@ + product + "..."@
}

fn line_product(line: &[char]) -> (r: Option<Vec<char>>)
    ensures
        match r {
            Some(p) => product_of_line(line@) == Some(p@),
            None => product_of_line(line@) is None,
        },
{
    let t = trim_chars(line, CharClass::Whitespace);
    match strip_prefix_chars(t.as_slice(), "Downloading ") {
        None => None,
        Some(p) => {
            let q = trim_chars(p.as_slice(), CharClass::Whitespace);
            let q = trim_end_chars(q.as_slice(), CharClass::Exactly('.'));
            if q.len() > 0 {
                Some(q)
            } else {
                None
            }
        },
    }
}

/// The product named last in the downloader's log.
pub fn log_product(log: &str) -> (r: Option<String>)
    ensures
        match r {
            Some(p) => last_product(lines(log@)) == Some(p@),
            None => last_product(lines(log@)) is None,
        },
{
    let chars = chars_of(log);
    let ls = lines_chars(chars.as_slice());
    let ghost lv = views(ls@);
    let mut found: Option<Vec<char>> = None;
    let mut i: usize = 0;
    while i < ls.len()
        invariant
            0 <= i <= ls@.len(),
            lv == views(ls@),
            lv.len() == ls@.len(),
            match found {
                Some(p) => last_product(lv.take(i as int)) == Some(p@),
                None => last_product(lv.take(i as int)) is None,
            },
        decreases ls@.len() - i,
    {
        assert(lv.take(i + 1).drop_last() =~= lv.take(i as int));
        assert(lv.take(i + 1).last() == ls@[i as int]@);
        match line_product(ls[i].as_slice()) {
            Some(p) => {
                found = Some(p);
            },
            None => {},
        }
        i = i + 1;
    }
    assert(lv.take(ls@.len() as int) =~= lv);
    match found {
        Some(p) => Some(string_from_chars(p.as_slice())),
        None => None,
    }
}

impl Download {
    pub fn new() -> (d: Download)
        ensures
            d.task.status@ == "Ready"@,
            !d.task.running,
            d.product@ == Seq::<char>::empty(),
            d.log_path is None,
    {
        Download { task: Task::new("Ready"), product: String::new(), log_path: None }
    }

    /// Decides how to start downloading the recovery image of `version`
    /// into the download root `root`; `disk` must tell whether OSX-KVM's
    /// `fetch-macOS-v2.py` exists. Returns the work to carry out, if any.
    pub fn download_macos(&mut self, root: &str, version: &str, disk: &Disk) -> (job: Option<Job>)
        ensures
            final(self).product == old(self).product,
            final(self).log_path == old(self).log_path,
            final(self).task.running == old(self).task.running,
            old(self).task.running ==> job is None && final(self).task.status == old(self).task.status,
            !old(self).task.running && !disk.spec_has(spec_osx_kvm_marker(root@)) ==> job is None
                && final(self).task.status@ == "fetch-macOS-v2.py not found: "@ + spec_osx_kvm_marker(root@),
            !old(self).task.running && disk.spec_has(spec_osx_kvm_marker(root@)) ==> match spec_recovery_params(version@) {
                None => job is None && final(self).task.status@ == "Unknown macOS version."@,
                Some(p) => final(self).task.status == old(self).task.status && (job matches Some(j) && j@ == download_job(root@, version@, p)),
            },
    {
        if self.task.running {
            return None;
        }
        let fetch = osx_kvm_marker(root);
        if !disk.has(fetch.as_str()) {
            self.task.status = cat("fetch-macOS-v2.py not found: ", fetch.as_str());
            return None;
        }
        let params = match recovery_params(version) {
            Some(p) => p,
            None => {
                self.task.status = owned("Unknown macOS version.");
                return None;
            },
        };
        let out = macos_download_path(root, version);
        let log = join_path(out.as_str(), "download.log");
        let mut steps: Vec<Step> = Vec::new();
        push_step(&mut steps, step(Action::CreateDirAll(out.clone()), "Could not create download directory: ", ""));
        push_step(&mut steps, step(Action::CreateLog(log.clone()), "Could not create downloader log: ", "Could not prepare downloader log: "));
        let mut c = CommandSpec::new("python3");
        c.arg(fetch.as_str());
        c.arg("--action");
        c.arg("download");
        c.arg("--board-id");
        c.arg(params.0);
        c.arg("--mlb");
        c.arg(params.1);
        c.arg("--os-type");
        c.arg(params.2);
        c.arg("--outdir");
        c.arg(out.as_str());
        c.set_output(Output::Log(log));
        let done = cat3("Downloading ", version, "...");
        let j = make_job(steps, Some(c), Some(done), "Could not start fetch-macOS-v2.py: ");
        assert(j@.steps =~= download_job(root@, version@, (params.0@, params.1@, params.2@)).steps);
        assert(j@.spawn->0.args =~= download_command(root@, version@, (params.0@, params.1@, params.2@)).args);
        Some(j)
    }

    /// Records what became of the job that starts a download: once the
    /// downloader started, its product is cleared and its log is followed;
    /// when it could not start, there is no log to follow.
    pub fn download_reported(&mut self, job: &Job, report: Report)
        requires
            report_fits(job@, report),
        ensures
            (final(self).task.status@, final(self).task.running) == spec_after_report(
                old(self).task.status@,
                old(self).task.running,
                job@,
                report,
            ),
            match report {
                Report::Spawned => final(self).product@ == Seq::<char>::empty()
                    && match final(self).log_path {
                        Some(p) => job_log(job@) == Some(p@),
                        None => job_log(job@) is None,
                    },
                Report::SpawnFailed(_) => final(self).product@ == Seq::<char>::empty()
                    && final(self).log_path is None,
                _ => final(self).product == old(self).product && final(self).log_path == old(self).log_path,
            },
    {
        let (s, r) = resolve_report(&self.task.status, self.task.running, job, &report);
        match report {
            Report::Spawned => {
                self.product = String::new();
                self.log_path = match &job.spawn {
                    Some(c) => match &c.output {
                        Output::Log(p) => Some(p.clone()),
                        _ => None,
                    },
                    None => None,
                };
            },
            Report::SpawnFailed(_) => {
                self.product = String::new();
                self.log_path = None;
            },
            _ => {},
        }
        self.task.status = s;
        self.task.running = r;
    }

    /// Looks at the running downloader: first the text of its log (`log`,
    /// when it could be read), whose last product line names the product
    /// being fetched; then the process itself. Returns whether the window
    /// should be drawn again soon.
    pub fn update_download(&mut self, version: &str, log: Option<&str>, poll: Poll) -> (repaint: bool)
        ensures
            !old(self).task.running ==> !repaint && *final(self) == *old(self),
            final(self).log_path == old(self).log_path,
            old(self).task.running ==> {
                // the product and status after reading the log
                let (product, status) = match (old(self).log_path, log) {
                    (Some(_), Some(t)) => match last_product(lines(t@)) {
                        Some(p) => (p, fetching_status(version@, p)),
                        None => (old(self).product@, old(self).task.status@),
                    },
                    _ => (old(self).product@, old(self).task.status@),
                };
                &&& final(self).product@ == product
                &&& match poll {
                    Poll::Running => repaint && final(self).task.running && final(self).task.status@ == status,
                    Poll::Exited { success, .. } => !repaint && !final(self).task.running
                        && final(self).task.status@ == if success {
                        if product.len() == 0 {
                            "Download complete!"@
                        } else {
                            "Download complete — Apple recovery "@ + product + "."@
                        }
                    } else {
                        "Download failed."@
                    },
                    Poll::Failed(e) => !repaint && !final(self).task.running
                        && final(self).task.status@ == "Failed to check download process: "@ + e@,
                }
            },
    {
        if !self.task.running {
            return false;
        }
        if self.log_path.is_some() {
            match log {
                Some(t) => match log_product(t) {
                    Some(p) => {
                        self.task.status = cat3(
                            cat3("Downloading ", version, " — Apple recovery ").as_str(),
                            p.as_str(),
                            "...",
                        );
                        self.product = p;
                    },
                    None => {},
                },
                None => {},
            }
        }
        match poll {
            Poll::Running => true,
            Poll::Exited { success, .. } => {
                self.task.running = false;
                if success {
                    if self.product.as_str().is_empty() {
                        self.task.status = owned("Download complete!");
                    } else {
                        self.task.status = cat3("Download complete — Apple recovery ", self.product.as_str(), ".");
                    }
                } else {
                    self.task.status = owned("Download failed.");
                }
                false
            },
            Poll::Failed(e) => {
                self.task.status = cat("Failed to check download process: ", e.as_str());
                self.task.running = false;
                false
            },
        }
    }
}

} // verus!
