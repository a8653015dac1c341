//! The system check: Linux, x86_64, KVM and an NVIDIA GPU.
use vstd::prelude::*;
use crate::text::{cat, cat3, decimal, decimal_string, owned, str_eq, trim, trim_str};

verus! {

/// One line of the system check.
pub struct SystemCheck {
    pub name: String,
    pub status: bool,
    pub details: String,
}

pub struct SystemCheckView {
    pub name: Seq<char>,
    pub status: bool,
    pub details: Seq<char>,
}

impl View for SystemCheck {
    type V = SystemCheckView;

    open spec fn view(&self) -> SystemCheckView {
        SystemCheckView { name: self.name@, status: self.status, details: self.details@ }
    }
}

pub open spec fn system_views(v: Seq<SystemCheck>) -> Seq<SystemCheckView> {
    v.map_values(|c: SystemCheck| c@)
}

/// The checks for an operating system, an architecture, whether `/dev/kvm`
/// exists, and what `nvidia-smi` printed when it succeeded.
pub open spec fn spec_system_checks(os: Seq<char>, arch: Seq<char>, kvm: bool, gpu: Option<Seq<char>>) -> Seq<SystemCheckView> {
    seq![
        SystemCheckView {
            name: "Linux"@,
            status: os == "linux"@,
            details: if os == "linux"@ {
                "Detected"@
            } else {
                "Not Linux"@
            },
        },
        SystemCheckView { name: "x86_64"@, status: arch == "x86_64"@, details: arch },
        SystemCheckView {
            name: "KVM"@,
            status: kvm,
            details: if kvm {
                "/dev/kvm found"@
            } else {
                "/dev/kvm not found"@
            },
        },
        match gpu {
            Some(g) => SystemCheckView { name: "NVIDIA GPU"@, status: true, details: trim(g) },
            None => SystemCheckView {
                name: "NVIDIA GPU"@,
                status: false,
                details: "nvidia-smi unavailable"@,
            },
        },
    ]
}

/// How many checks passed.
pub open spec fn passed(v: Seq<SystemCheckView>) -> nat
    decreases v.len(),
{
    if v.len() == 0 {
        0
    } else {
        passed(v.drop_last()) + if v.last().status {
            1nat
        } else {
            0nat
        }
    }
}

/// The system check's results, and whether it was made.
pub struct SystemChecks {
    pub checks: Vec<SystemCheck>,
    pub checked: bool,
}

impl SystemChecks {
    pub fn new() -> (s: SystemChecks)
        ensures
            s.checks@.len() == 0,
            !s.checked,
    {
        SystemChecks { checks: Vec::new(), checked: false }
    }

    /// Records the system check. `os` and `arch` are the platform's names
    /// for the operating system and architecture, `kvm` whether `/dev/kvm`
    /// exists, and `gpu` what `nvidia-smi --query-gpu=name` printed when it
    /// ran and succeeded.
    pub fn check_system(&mut self, os: &str, arch: &str, kvm: bool, gpu: Option<&str>)
        ensures
            system_views(final(self).checks@) == spec_system_checks(
                os@,
                arch@,
                kvm,
                match gpu {
                    Some(g) => Some(g@),
                    None => None,
                },
            ),
            final(self).checked,
    {
        let mut checks: Vec<SystemCheck> = Vec::new();
        let linux = str_eq(os, "linux");
        checks.push(
            SystemCheck {
                name: owned("Linux"),
                status: linux,
                details: if linux {
                    owned("Detected")
                } else {
                    owned("Not Linux")
                },
            },
        );
        checks.push(SystemCheck { name: owned("x86_64"), status: str_eq(arch, "x86_64"), details: owned(arch) });
        checks.push(
            SystemCheck {
                name: owned("KVM"),
                status: kvm,
                details: if kvm {
                    owned("/dev/kvm found")
                } else {
                    owned("/dev/kvm not found")
                },
            },
        );
        match gpu {
            Some(g) => {
                checks.push(SystemCheck { name: owned("NVIDIA GPU"), status: true, details: trim_str(g) });
            },
            None => {
                checks.push(SystemCheck { name: owned("NVIDIA GPU"), status: false, details: owned("nvidia-smi unavailable") });
            },
        }
        assert(system_views(checks@) =~= spec_system_checks(
            os@,
            arch@,
            kvm,
            match gpu {
                Some(g) => Some(g@),
                None => None,
            },
        ));
        self.checks = checks;
        self.checked = true;
    }

    /// How many checks passed.
    pub fn passed_count(&self) -> (n: usize)
        ensures
            n == passed(system_views(self.checks@)),
    {
        let ghost v = system_views(self.checks@);
        let mut n: usize = 0;
        let mut i: usize = 0;
        while i < self.checks.len()
            invariant
                0 <= i <= self.checks@.len(),
                v == system_views(self.checks@),
                n == passed(v.take(i as int)),
                n <= i,
            decreases self.checks@.len() - i,
        {
            assert(v.take(i + 1).drop_last() =~= v.take(i as int));
            assert(v.take(i + 1).last() == self.checks@[i as int]@);
            if self.checks[i].status {
                n = n + 1;
            }
            i = i + 1;
        }
        assert(v.take(self.checks@.len() as int) =~= v);
        n
    }

    /// The dashboard's summary: `passed / total checks passed`.
    pub fn summary(&self) -> (s: String)
        ensures
            s@ == decimal(passed(system_views(self.checks@))) + " / "@ + decimal(self.checks@.len() as nat)
                + " checks passed"@,
    {
        let p = self.passed_count();
        let a = decimal_string(p as u64);
        let b = decimal_string(self.checks.len() as u64);
        let c = cat3(a.as_str(), " / ", b.as_str());
        cat(c.as_str(), " checks passed")
    }
}


/// No more checks pass than there are.
pub proof fn lemma_passed_at_most(v: Seq<SystemCheckView>)
    ensures
        passed(v) <= v.len(),
    decreases v.len(),
{
    if v.len() > 0 {
        lemma_passed_at_most(v.drop_last());
    }
}

} // verus!
