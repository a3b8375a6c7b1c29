//! Database queries: the filter that a report's settings ask the advisory
//! database to apply.

use vstd::prelude::*;
use crate::advisory::Severity;

verus! {

/// A CPU architecture that an advisory may be limited to.
#[derive(Clone, Copy, Debug, PartialEq, Eq, Structural)]
pub enum Arch {
    Aarch64,
    Arm,
    Mips,
    Mips64,
    PowerPc,
    PowerPc64,
    Riscv64,
    S390x,
    Wasm32,
    X86,
    X86_64,
}

/// An operating system that an advisory may be limited to.
#[derive(Clone, Copy, Debug, PartialEq, Eq, Structural)]
pub enum OS {
    Android,
    Dragonfly,
    FreeBSD,
    Fuchsia,
    Illumos,
    IOS,
    Linux,
    MacOS,
    NetBSD,
    OpenBSD,
    Solaris,
    Wasi,
    Windows,
}

/// A filter over the advisories of a database, built step by step: each
/// step returns a new query and leaves the old one as it was.
#[derive(Clone, Copy, Debug, PartialEq, Eq, Structural)]
pub struct Query {
    /// Match advisories against every package of a lockfile.
    pub crate_scope: bool,
    pub target_arch: Option<Arch>,
    pub target_os: Option<OS>,
    /// Match only advisories at least this severe.
    pub severity: Option<Severity>,
    /// Match informational advisories instead of vulnerabilities.
    pub informational: bool,
}

impl Query {
    /// The query that matches every advisory of a lockfile's packages that
    /// is not informational.
    pub fn crate_scope() -> (q: Query)
        ensures
            q == (Query {
                crate_scope: true,
                target_arch: None,
                target_os: None,
                severity: None,
                informational: false,
            }),
    {
        Query {
            crate_scope: true,
            target_arch: None,
            target_os: None,
            severity: None,
            informational: false,
        }
    }

    pub fn target_arch(self, arch: Arch) -> (q: Query)
        ensures
            q == (Query { target_arch: Some(arch), ..self }),
    {
        Query { target_arch: Some(arch), ..self }
    }

    pub fn target_os(self, os: OS) -> (q: Query)
        ensures
            q == (Query { target_os: Some(os), ..self }),
    {
        Query { target_os: Some(os), ..self }
    }

    pub fn severity(self, severity: Severity) -> (q: Query)
        ensures
            q == (Query { severity: Some(severity), ..self }),
    {
        Query { severity: Some(severity), ..self }
    }

    pub fn informational(self, informational: bool) -> (q: Query)
        ensures
            q == (Query { informational, ..self }),
    {
        Query { informational, ..self }
    }
}

} // verus!
