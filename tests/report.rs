use audit_report::advisory::{
    Advisory, Id, Informational, Package, Severity, Versions, Vulnerability, WarningKind,
};
use audit_report::query::{Arch, Query, OS};
use audit_report::report::{
    find_warnings, remove_ignored, Commit, DatabaseInfo, Lockfile, LockfileInfo, Report,
    Settings, VulnerabilityInfo,
};

fn package(name: &str) -> Package {
    Package { name: name.to_string(), version: "1.0.0".to_string() }
}

fn advisory(id: &str, name: &str, severity: Severity, info: Option<Informational>) -> Advisory {
    Advisory {
        id: Id::new(id.to_string()),
        package: name.to_string(),
        title: format!("advisory {}", id),
        severity: Some(severity),
        informational: info,
    }
}

fn vuln(id: &str, name: &str, severity: Severity) -> Vulnerability {
    Vulnerability {
        advisory: advisory(id, name, severity, None),
        versions: Versions { patched: vec![">= 1.0.1".to_string()], unaffected: vec![] },
        package: package(name),
    }
}

fn info(id: &str, name: &str, category: Informational) -> Vulnerability {
    Vulnerability {
        advisory: advisory(id, name, Severity::Unrated, Some(category)),
        versions: Versions { patched: vec![], unaffected: vec!["< 0.1".to_string()] },
        package: package(name),
    }
}

fn settings(ignore: &[&str], warnings: Vec<Informational>) -> Settings {
    let mut s = Settings::default();
    s.ignore = ignore.iter().map(|i| Id::new(i.to_string())).collect();
    s.informational_warnings = warnings;
    s
}

fn ids(list: &[Vulnerability]) -> Vec<String> {
    list.iter().map(|v| v.advisory.id.as_str().to_string()).collect()
}

fn database() -> DatabaseInfo {
    DatabaseInfo::new(42, None)
}

fn lockfile(n: usize) -> Lockfile {
    Lockfile { packages: (0..n).map(|i| package(&format!("p{}", i))).collect() }
}

#[test]
fn ignored_advisory_is_left_out() {
    let s = settings(&["ADV-001"], vec![]);
    let matches = vec![vuln("ADV-001", "a", Severity::High), vuln("ADV-002", "b", Severity::Low)];
    let r = Report::generate(database(), &lockfile(2), &s, matches, vec![]);
    assert!(r.vulnerabilities.found);
    assert_eq!(r.vulnerabilities.count, 1);
    assert_eq!(ids(&r.vulnerabilities.list), vec!["ADV-002".to_string()]);
    assert_eq!(r.vulnerabilities.list[0].package.name, "b");
}

#[test]
fn unmaintained_warning_only() {
    let s = settings(&[], vec![Informational::Unmaintained]);
    let matches = vec![
        info("ADV-010", "foo", Informational::Unmaintained),
        info("ADV-011", "bar", Informational::Unsound),
    ];
    let w = find_warnings(&s, matches);
    assert_eq!(w.len(), 1);
    let list = w.get(WarningKind::Unmaintained).unwrap();
    assert_eq!(list.len(), 1);
    assert_eq!(list[0].package.name, "foo");
    assert_eq!(list[0].kind, WarningKind::Unmaintained);
    assert_eq!(list[0].advisory.as_ref().unwrap().id.as_str(), "ADV-010");
    assert_eq!(list[0].versions.as_ref().unwrap().unaffected, vec!["< 0.1".to_string()]);
    assert!(w.get(WarningKind::Unsound).is_none());
}

/// Stands for the database in the tests: keeps the advisories at least as
/// severe as the query asks and of the query's mode.
fn run_query(query: &Query, all: &[Vulnerability]) -> Vec<Vulnerability> {
    fn rank(s: Severity) -> u8 {
        match s {
            Severity::Unrated => 0,
            Severity::Low => 1,
            Severity::Medium => 2,
            Severity::High => 3,
            Severity::Critical => 4,
        }
    }
    all.iter()
        .filter(|v| v.advisory.informational.is_some() == query.informational)
        .filter(|v| match query.severity {
            Some(min) => rank(v.advisory.severity.unwrap()) >= rank(min),
            None => true,
        })
        .map(|v| Vulnerability {
            advisory: Advisory {
                id: v.advisory.id.clone(),
                package: v.advisory.package.clone(),
                title: v.advisory.title.clone(),
                severity: v.advisory.severity,
                informational: v.advisory.informational.clone(),
            },
            versions: Versions {
                patched: v.versions.patched.clone(),
                unaffected: v.versions.unaffected.clone(),
            },
            package: Package { name: v.package.name.clone(), version: v.package.version.clone() },
        })
        .collect()
}

#[test]
fn severity_threshold_filters_at_query() {
    let mut s = settings(&[], vec![Informational::Unmaintained]);
    s.severity = Some(Severity::Medium);
    let q = s.query();
    assert_eq!(q.severity, Some(Severity::Medium));
    let iq = s.query().informational(true);
    assert_eq!(iq.severity, Some(Severity::Medium));
    assert!(iq.informational);

    let mut low_info = info("ADV-022", "old", Informational::Unmaintained);
    low_info.advisory.severity = Some(Severity::Low);
    let mut high_info = info("ADV-023", "older", Informational::Unmaintained);
    high_info.advisory.severity = Some(Severity::High);
    let all = vec![
        vuln("ADV-020", "a", Severity::Low),
        vuln("ADV-021", "b", Severity::Critical),
        low_info,
        high_info,
    ];
    let r = Report::generate(database(), &lockfile(4), &s, run_query(&q, &all), run_query(&iq, &all));
    assert_eq!(ids(&r.vulnerabilities.list), vec!["ADV-021".to_string()]);
    let list = r.warnings.get(WarningKind::Unmaintained).unwrap();
    assert_eq!(list.len(), 1);
    assert_eq!(list[0].package.name, "older");
}

#[test]
fn vulnerability_info_counts() {
    let empty = VulnerabilityInfo::new(vec![]);
    assert!(!empty.found);
    assert_eq!(empty.count, 0);
    let two = VulnerabilityInfo::new(vec![vuln("X-1", "a", Severity::Low), vuln("X-2", "b", Severity::Low)]);
    assert!(two.found);
    assert_eq!(two.count, 2);
    assert_eq!(ids(&two.list), vec!["X-1".to_string(), "X-2".to_string()]);
}

#[test]
fn remove_ignored_keeps_order() {
    let s = settings(&["B", "D"], vec![]);
    let matches = vec![
        vuln("A", "a", Severity::Low),
        vuln("B", "b", Severity::Low),
        vuln("C", "c", Severity::Low),
        vuln("D", "d", Severity::Low),
        vuln("E", "e", Severity::Low),
    ];
    let kept = remove_ignored(&s, matches);
    assert_eq!(ids(&kept), vec!["A".to_string(), "C".to_string(), "E".to_string()]);
}

#[test]
fn nothing_ignored_keeps_all() {
    let s = settings(&[], vec![]);
    let kept = remove_ignored(&s, vec![vuln("A", "a", Severity::Low), vuln("A", "b", Severity::Low)]);
    assert_eq!(kept.len(), 2);
}

#[test]
fn warning_conditions_each_drop() {
    let s = settings(
        &["ADV-IGN"],
        vec![Informational::Unmaintained, Informational::Other("internal".to_string())],
    );
    let matches = vec![
        info("ADV-IGN", "ignored", Informational::Unmaintained),
        info("ADV-OTH", "other", Informational::Other("internal".to_string())),
        info("ADV-NOT", "unasked", Informational::Notice),
        vuln("ADV-VUL", "plain", Severity::High),
        info("ADV-OK", "kept", Informational::Unmaintained),
    ];
    let w = find_warnings(&s, matches);
    assert_eq!(w.len(), 1);
    let list = w.get(WarningKind::Unmaintained).unwrap();
    assert_eq!(list.len(), 1);
    assert_eq!(list[0].package.name, "kept");
}

#[test]
fn warnings_group_by_kind_in_order() {
    let s = settings(
        &[],
        vec![Informational::Notice, Informational::Unmaintained, Informational::Unsound],
    );
    let matches = vec![
        info("W1", "a", Informational::Unmaintained),
        info("W2", "b", Informational::Unsound),
        info("W3", "c", Informational::Unmaintained),
        info("W4", "d", Informational::Notice),
        info("W5", "e", Informational::Unmaintained),
    ];
    let w = find_warnings(&s, matches);
    assert_eq!(w.len(), 3);
    let names = |k: WarningKind| -> Vec<String> {
        w.get(k).unwrap().iter().map(|x| x.package.name.clone()).collect()
    };
    assert_eq!(names(WarningKind::Unmaintained), vec!["a", "c", "e"]);
    assert_eq!(names(WarningKind::Unsound), vec!["b"]);
    assert_eq!(names(WarningKind::Notice), vec!["d"]);
    for g in &w.groups {
        assert!(g.warnings.iter().all(|x| x.kind == g.kind));
    }
    assert!(w.get(WarningKind::Yanked).is_none());
    assert_eq!(w.position(WarningKind::Unmaintained), Some(0));
}

#[test]
fn no_matches_no_warnings() {
    let s = settings(&[], vec![Informational::Unmaintained]);
    let w = find_warnings(&s, vec![]);
    assert_eq!(w.len(), 0);
}

#[test]
fn generate_twice_agrees() {
    let s = settings(&["ADV-001"], vec![Informational::Unsound]);
    let make = || {
        Report::generate(
            DatabaseInfo::new(7, None),
            &lockfile(3),
            &s,
            vec![vuln("ADV-001", "a", Severity::High), vuln("ADV-002", "b", Severity::Low)],
            vec![info("ADV-003", "c", Informational::Unsound)],
        )
    };
    let r1 = make();
    let r2 = make();
    assert_eq!(ids(&r1.vulnerabilities.list), ids(&r2.vulnerabilities.list));
    assert_eq!(r1.vulnerabilities.count, r2.vulnerabilities.count);
    assert_eq!(r1.warnings.len(), r2.warnings.len());
    assert_eq!(
        r1.warnings.get(WarningKind::Unsound).unwrap()[0].package.name,
        r2.warnings.get(WarningKind::Unsound).unwrap()[0].package.name
    );
    assert_eq!(r1.lockfile.dependency_count(), 3);
    assert_eq!(r1.database.advisory_count, 7);
    assert_eq!(r1.settings.ignore.len(), 1);
    assert_eq!(r1.settings.ignore[0].as_str(), "ADV-001");
    assert_eq!(r1.settings.informational_warnings.len(), 1);
}

#[test]
fn query_from_settings() {
    let mut s = Settings::default();
    assert_eq!(
        s.query(),
        Query { crate_scope: true, target_arch: None, target_os: None, severity: None, informational: false }
    );
    s.target_arch = Some(Arch::X86_64);
    s.target_os = Some(OS::Linux);
    let q = s.query();
    assert_eq!(q.target_arch, Some(Arch::X86_64));
    assert_eq!(q.target_os, Some(OS::Linux));
    assert_eq!(q.severity, None);
    assert!(!q.informational);
    let base = Query::crate_scope();
    let changed = base.severity(Severity::High);
    assert_eq!(base.severity, None);
    assert_eq!(changed.severity, Some(Severity::High));
}

#[test]
fn lockfile_and_database_info() {
    assert_eq!(LockfileInfo::new(&lockfile(0)).dependency_count(), 0);
    assert_eq!(LockfileInfo::new(&lockfile(5)).dependency_count(), 5);
    let none = DatabaseInfo::new(3, None);
    assert_eq!(none.advisory_count, 3);
    assert!(none.last_commit.is_none());
    assert!(none.last_updated.is_none());
    let at = time::OffsetDateTime::UNIX_EPOCH;
    let some = DatabaseInfo::new(
        9,
        Some(Commit { commit_id: "a1b2c3".to_string(), timestamp: at }),
    );
    assert_eq!(some.last_commit.as_deref(), Some("a1b2c3"));
    assert_eq!(some.last_updated, Some(at));
}

#[test]
fn categories_compare_exactly() {
    assert!(Informational::Other("x".to_string()).same(&Informational::Other("x".to_string())));
    assert!(!Informational::Other("x".to_string()).same(&Informational::Other("y".to_string())));
    assert!(!Informational::Notice.same(&Informational::Unmaintained));
    assert_eq!(Informational::Unsound.warning_kind(), Some(WarningKind::Unsound));
    assert_eq!(Informational::Other("notice".to_string()).warning_kind(), None);
    let s = settings(&["A"], vec![Informational::Notice]);
    assert!(s.is_ignored(&Id::new("A".to_string())));
    assert!(!s.is_ignored(&Id::new("a".to_string())));
    assert!(s.wants_warnings(&Informational::Notice));
    assert!(!s.wants_warnings(&Informational::Unsound));
}
