//! Report generation: the settings of a report, and how the matches of the
//! database queries become its vulnerabilities and warnings.

use vstd::prelude::*;
use crate::advisory::{Id, Informational, Package, Severity, Vulnerability, Warning, WarningKind};
use crate::query::{Arch, Query, OS};
use crate::warnings::WarningInfo;

verus! {

/// Options to use when generating a report.
pub struct Settings {
    /// CPU architecture
    pub target_arch: Option<Arch>,
    /// Operating system
    pub target_os: Option<OS>,
    /// Severity threshold to alert at
    pub severity: Option<Severity>,
    /// Advisory IDs to ignore
    pub ignore: Vec<Id>,
    /// Categories of informational advisories to report as warnings
    pub informational_warnings: Vec<Informational>,
}

impl Settings {
    /// The query for vulnerabilities that these settings describe.
    pub open spec fn base_query(self) -> Query {
        Query {
            crate_scope: true,
            target_arch: self.target_arch,
            target_os: self.target_os,
            severity: self.severity,
            informational: false,
        }
    }

    pub open spec fn ignores(self, id: Seq<char>) -> bool {
        exists|i: int| 0 <= i < self.ignore.len() && #[trigger] self.ignore@[i]@ == id
    }

    pub open spec fn wants(self, category: Informational) -> bool {
        exists|i: int|
            0 <= i < self.informational_warnings.len()
                && #[trigger] self.informational_warnings@[i].same_as(category)
    }

    /// Get a query which corresponds to the configured report settings.
    /// Queries do not filter ignored advisories: that happens in a separate
    /// pass.
    pub fn query(&self) -> (q: Query)
        ensures
            q == self.base_query(),
    {
        let mut query = Query::crate_scope();

        if let Some(target_arch) = self.target_arch {
            query = query.target_arch(target_arch);
        }

        if let Some(target_os) = self.target_os {
            query = query.target_os(target_os);
        }

        if let Some(severity) = self.severity {
            query = query.severity(severity);
        }

        query
    }

    /// Whether the advisory `id` is to be ignored.
    pub fn is_ignored(&self, id: &Id) -> (r: bool)
        ensures
            r == self.ignores(id@),
    {
        let mut i: usize = 0;
        while i < self.ignore.len()
            invariant
                i <= self.ignore.len(),
                forall|j: int| 0 <= j < i ==> self.ignore@[j]@ != id@,
            decreases self.ignore.len() - i,
        {
            if self.ignore[i].same(id) {
                return true;
            }
            i += 1;
        }
        false
    }

    /// Whether advisories of `category` are to be reported as warnings.
    pub fn wants_warnings(&self, category: &Informational) -> (r: bool)
        ensures
            r == self.wants(*category),
    {
        let mut i: usize = 0;
        while i < self.informational_warnings.len()
            invariant
                i <= self.informational_warnings.len(),
                forall|j: int| 0 <= j < i ==> !self.informational_warnings@[j].same_as(*category),
            decreases self.informational_warnings.len() - i,
        {
            if self.informational_warnings[i].same(category) {
                return true;
            }
            i += 1;
        }
        false
    }
}

/// The kind that an informational match is reported under, or `None` where
/// it is dropped: its advisory is ignored, has no category, has one that the
/// settings do not ask for, or has one that maps to no kind.
pub open spec fn warning_kind_for(s: Settings, v: Vulnerability) -> Option<WarningKind> {
    if s.ignores(v.advisory.id@) {
        None
    } else {
        match v.advisory.informational {
            Some(c) => if s.wants(c) {
                c.kind()
            } else {
                None
            },
            None => None,
        }
    }
}

/// The warning that reports match `v` under `kind`.
pub open spec fn warning_for(v: Vulnerability, kind: WarningKind) -> Warning {
    Warning {
        kind,
        package: v.package,
        advisory: Some(v.advisory),
        versions: Some(v.versions),
    }
}

/// The positions, among the first `n` matches, of those reported under
/// `kind`, in increasing order.
pub open spec fn sources(s: Settings, m: Seq<Vulnerability>, kind: WarningKind, n: nat) -> Seq<int>
    decreases n,
{
    if n == 0 {
        Seq::empty()
    } else {
        let earlier = sources(s, m, kind, (n - 1) as nat);
        if warning_kind_for(s, m[n - 1]) == Some(kind) {
            earlier.push(n - 1)
        } else {
            earlier
        }
    }
}

/// The warnings of `kind` that the first `n` matches give, in the order of
/// the matches.
pub open spec fn bucket(s: Settings, m: Seq<Vulnerability>, kind: WarningKind, n: nat) -> Seq<Warning> {
    sources(s, m, kind, n).map_values(|i: int| warning_for(m[i], kind))
}

/// `w` holds the warnings that the first `n` matches of `m` give: each kind
/// with at least one warning has one group, which holds the warnings of that
/// kind in the order of the matches.
pub open spec fn groups_for(w: WarningInfo, s: Settings, m: Seq<Vulnerability>, n: nat) -> bool {
    &&& w.well_formed()
    &&& forall|k: WarningKind| w.has_kind(k) <==> sources(s, m, k, n).len() > 0
    &&& forall|i: int|
        0 <= i < w.groups.len() ==> (#[trigger] w.groups@[i]).warnings@ == bucket(
            s,
            m,
            w.groups@[i].kind,
            n,
        )
}

/// `w` holds the warnings that the matches `m` of the informational query
/// give.
pub open spec fn warnings_of(w: WarningInfo, s: Settings, m: Seq<Vulnerability>) -> bool {
    groups_for(w, s, m, m.len())
}

/// Find warnings among `matches`, the result of the informational query
/// `settings.query().informational(true)`.
pub fn find_warnings(settings: &Settings, matches: Vec<Vulnerability>) -> (r: WarningInfo)
    ensures
        warnings_of(r, *settings, matches@),
{
    let ghost m = matches@;
    let ghost s = *settings;
    let mut warnings = WarningInfo::new();
    let ghost mut n: nat = 0;

    for advisory_vuln in it: matches.into_iter()
        invariant
            it.seq() == m,
            s == *settings,
            n == it.index(),
            groups_for(warnings, s, m, n),
    {
        assert(advisory_vuln == m[n as int]);
        let ghost old_warnings = warnings;
        let Vulnerability { advisory, versions, package } = advisory_vuln;

        // The kind this match is reported under, if it is reported at all.
        let mut kind: Option<WarningKind> = None;
        if !settings.is_ignored(&advisory.id) {
            if let Some(category) = &advisory.informational {
                if settings.wants_warnings(category) {
                    kind = category.warning_kind();
                }
            }
        }
        assert(kind == warning_kind_for(s, m[n as int]));

        proof {
            assert forall|k: WarningKind| #[trigger] sources(s, m, k, (n + 1) as nat)
                == if kind == Some(k) {
                sources(s, m, k, n as nat).push(n as int)
            } else {
                sources(s, m, k, n as nat)
            } by {}
        }

        if let Some(kind) = kind {
            let warning = Warning::new(kind, package, Some(advisory), Some(versions));
            assert(warning == warning_for(m[n as int], kind));
            warnings.add(warning);
            proof {
                assert forall|k: WarningKind| warnings.has_kind(k) <==> sources(s, m, k, (n + 1) as nat).len() > 0 by {
                    assert(sources(s, m, k, (n + 1) as nat) == if k == kind {
                        sources(s, m, k, n).push(n as int)
                    } else {
                        sources(s, m, k, n)
                    });
                    if k == kind {
                        if !old_warnings.has_kind(k) {
                            assert(warnings.groups@[warnings.groups.len() - 1].kind == k);
                        } else {
                            let i = choose|i: int| 0 <= i < old_warnings.groups.len() && #[trigger] old_warnings.groups@[i].kind == k;
                            assert(warnings.groups@[i].kind == k);
                        }
                    } else {
                        if warnings.has_kind(k) {
                            let i = choose|i: int| 0 <= i < warnings.groups.len() && #[trigger] warnings.groups@[i].kind == k;
                            assert(old_warnings.groups@[i].kind == k);
                        }
                        if old_warnings.has_kind(k) {
                            let i = choose|i: int| 0 <= i < old_warnings.groups.len() && #[trigger] old_warnings.groups@[i].kind == k;
                            assert(warnings.groups@[i].kind == k);
                        }
                    }
                }
                assert forall|i: int| 0 <= i < warnings.groups.len() implies
                    (#[trigger] warnings.groups@[i]).warnings@ == bucket(s, m, warnings.groups@[i].kind, (n + 1) as nat) by {
                    let k = warnings.groups@[i].kind;
                    if k == kind {
                        assert(bucket(s, m, k, (n + 1) as nat) =~= bucket(s, m, k, n as nat).push(warning));
                        if i == old_warnings.groups.len() {
                            assert(!old_warnings.has_kind(k));
                            assert(bucket(s, m, k, n as nat) =~= Seq::empty());
                        }
                    } else {
                        assert(bucket(s, m, k, (n + 1) as nat) =~= bucket(s, m, k, n as nat));
                    }
                }
            }
        } else {
            proof {
                assert forall|i: int| 0 <= i < warnings.groups.len() implies
                    (#[trigger] warnings.groups@[i]).warnings@ == bucket(s, m, warnings.groups@[i].kind, (n + 1) as nat) by {
                    let k = warnings.groups@[i].kind;
                    assert(bucket(s, m, k, (n + 1) as nat) =~= bucket(s, m, k, n as nat));
                }
            }
        }
        proof {
            n = n + 1;
        }
    }

    warnings
}

impl Clone for Settings {
    fn clone(&self) -> (r: Self)
        ensures
            r.same_as(*self),
    {
        let ignore = self.ignore.clone();
        let informational_warnings = self.informational_warnings.clone();
        assert(ignore@ =~= self.ignore@);
        assert(informational_warnings@ =~= self.informational_warnings@);
        Settings {
            target_arch: self.target_arch,
            target_os: self.target_os,
            severity: self.severity,
            ignore,
            informational_warnings,
        }
    }
}

impl Default for Settings {
    /// No target, no severity threshold, nothing ignored and no warnings asked for.
    fn default() -> (r: Self)
        ensures
            r.target_arch.is_none(),
            r.target_os.is_none(),
            r.severity.is_none(),
            r.ignore@.len() == 0,
            r.informational_warnings@.len() == 0,
    {
        Settings {
            target_arch: None,
            target_os: None,
            severity: None,
            ignore: Vec::new(),
            informational_warnings: Vec::new(),
        }
    }
}

impl Settings {
    /// The same options, held in other vectors.
    pub open spec fn same_as(self, other: Settings) -> bool {
        &&& self.target_arch == other.target_arch
        &&& self.target_os == other.target_os
        &&& self.severity == other.severity
        &&& self.ignore@ == other.ignore@
        &&& self.informational_warnings@ == other.informational_warnings@
    }
}

/// The matches `m` of the vulnerability query whose advisory is not ignored,
/// in the order of the query.
pub open spec fn unignored(s: Settings, m: Seq<Vulnerability>) -> Seq<Vulnerability> {
    m.filter(|v: Vulnerability| !s.ignores(v.advisory.id@))
}

/// The matches of the vulnerability query whose advisory is not ignored.
pub fn remove_ignored(settings: &Settings, matches: Vec<Vulnerability>) -> (r: Vec<Vulnerability>)
    ensures
        r@ == unignored(*settings, matches@),
{
    let ghost m = matches@;
    let ghost s = *settings;
    let mut list: Vec<Vulnerability> = Vec::new();
    for vuln in it: matches.into_iter()
        invariant
            it.seq() == m,
            s == *settings,
            it.index() <= m.len(),
            list@ == unignored(s, m.take(it.index() as int)),
    {
        let ghost n = it.index() as int;
        assert(vuln == m[n]);
        assert(m.take(n + 1).drop_last() =~= m.take(n));
        assert(m.take(n + 1).last() == vuln);
        reveal(Seq::filter);
        if !settings.is_ignored(&vuln.advisory.id) {
            list.push(vuln);
        }
    }
    assert(m.take(m.len() as int) =~= m);
    list
}

/// Information about detected vulnerabilities.
pub struct VulnerabilityInfo {
    /// Were any vulnerabilities found?
    pub found: bool,
    /// Number of vulnerabilities found
    pub count: usize,
    /// Detected vulnerabilities
    pub list: Vec<Vulnerability>,
}

impl VulnerabilityInfo {
    /// `count` is the length of `list`, and `found` says whether it is
    /// positive.
    pub open spec fn consistent(self) -> bool {
        &&& self.count == self.list.len()
        &&& self.found == (self.count > 0)
    }

    pub fn new(list: Vec<Vulnerability>) -> (r: VulnerabilityInfo)
        ensures
            r.consistent(),
            r.list@ == list@,
    {
        VulnerabilityInfo { found: !list.is_empty(), count: list.len(), list }
    }
}

/// A lockfile: the exact packages a project builds with.
pub struct Lockfile {
    pub packages: Vec<Package>,
}

/// Information about a lockfile.
pub struct LockfileInfo {
    /// Number of dependencies in the lock file
    pub dependency_count: usize,
}

impl LockfileInfo {
    pub open spec fn spec_dependency_count(self) -> nat {
        self.dependency_count as nat
    }

    /// Create lockfile information from the given lockfile
    pub fn new(lockfile: &Lockfile) -> (r: LockfileInfo)
        ensures
            r.spec_dependency_count() == lockfile.packages.len(),
    {
        LockfileInfo { dependency_count: lockfile.packages.len() }
    }

    pub fn dependency_count(&self) -> (r: usize)
        ensures
            r == self.spec_dependency_count(),
    {
        self.dependency_count
    }
}

/// Declares `time::OffsetDateTime`, a point in time with a UTC offset. The
/// library only carries such a value (the time of a commit) into a report,
/// as it was given, and never looks inside it.
#[verifier::external_type_specification]
#[verifier::external_body]
pub struct ExOffsetDateTime(time::OffsetDateTime);

/// The last commit of a database kept under version control.
pub struct Commit {
    /// The commit's hash, in hexadecimal
    pub commit_id: String,
    /// When the commit was made
    pub timestamp: time::OffsetDateTime,
}

/// Information about the advisory database.
pub struct DatabaseInfo {
    /// Number of advisories in the database
    pub advisory_count: usize,
    /// Hash of the last commit to the database
    pub last_commit: Option<String>,
    /// Date of the last commit to the database
    pub last_updated: Option<time::OffsetDateTime>,
}

impl DatabaseInfo {
    /// Create database information from the number of advisories and, for a
    /// database with a history, its last commit. Without one, both commit
    /// fields are absent.
    pub fn new(advisory_count: usize, latest_commit: Option<Commit>) -> (r: DatabaseInfo)
        ensures
            r.advisory_count == advisory_count,
            match latest_commit {
                Some(c) => r.last_commit == Some(c.commit_id) && r.last_updated == Some(
                    c.timestamp,
                ),
                None => r.last_commit.is_none() && r.last_updated.is_none(),
            },
    {
        match latest_commit {
            Some(c) => DatabaseInfo {
                advisory_count,
                last_commit: Some(c.commit_id),
                last_updated: Some(c.timestamp),
            },
            None => DatabaseInfo { advisory_count, last_commit: None, last_updated: None },
        }
    }
}

/// Vulnerability report for a lockfile.
pub struct Report {
    /// Information about the advisory database
    pub database: DatabaseInfo,
    /// Information about the audited lockfile
    pub lockfile: LockfileInfo,
    /// Settings used when generating the report
    pub settings: Settings,
    /// Vulnerabilities detected in the project
    pub vulnerabilities: VulnerabilityInfo,
    /// Warnings about dependencies (from informational advisories)
    pub warnings: WarningInfo,
}

impl Report {
    /// `self` is the report on `lockfile` under `settings`, for the database
    /// described by `database` whose vulnerability query gave `matches` and
    /// whose informational query gave `informational`.
    pub open spec fn reports(
        self,
        database: DatabaseInfo,
        lockfile: Lockfile,
        settings: Settings,
        matches: Seq<Vulnerability>,
        informational: Seq<Vulnerability>,
    ) -> bool {
        &&& self.database == database
        &&& self.lockfile.spec_dependency_count() == lockfile.packages.len()
        &&& self.settings.same_as(settings)
        &&& self.vulnerabilities.consistent()
        &&& self.vulnerabilities.list@ == unignored(settings, matches)
        &&& warnings_of(self.warnings, settings, informational)
    }

    /// Generate a report for a lockfile. `matches` is what the database gave
    /// for `settings.query()`, and `informational` what it gave for
    /// `settings.query().informational(true)`.
    pub fn generate(
        database: DatabaseInfo,
        lockfile: &Lockfile,
        settings: &Settings,
        matches: Vec<Vulnerability>,
        informational: Vec<Vulnerability>,
    ) -> (r: Report)
        ensures
            r.reports(database, *lockfile, *settings, matches@, informational@),
    {
        let vulnerabilities = remove_ignored(settings, matches);
        let warnings = find_warnings(settings, informational);

        Report {
            database,
            lockfile: LockfileInfo::new(lockfile),
            settings: settings.clone(),
            vulnerabilities: VulnerabilityInfo::new(vulnerabilities),
            warnings,
        }
    }
}

} // verus!
