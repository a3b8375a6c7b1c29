//! Laws that relate the parts of a report to the matches it was made from.

use vstd::prelude::*;
use crate::advisory::{Vulnerability, WarningKind};
use crate::report::{
    bucket, sources, unignored, warning_for, warning_kind_for, warnings_of, DatabaseInfo,
    Lockfile, Report, Settings,
};
use crate::warnings::WarningInfo;

verus! {

/// The positions that `sources` lists are those of the matches reported
/// under `kind`, each once, in increasing order.
pub proof fn lemma_sources(s: Settings, m: Seq<Vulnerability>, kind: WarningKind, n: nat)
    requires
        n <= m.len(),
    ensures
        forall|j: int|
            0 <= j < sources(s, m, kind, n).len() ==> 0 <= #[trigger] sources(s, m, kind, n)[j]
                < n && warning_kind_for(s, m[sources(s, m, kind, n)[j]]) == Some(kind),
        forall|j1: int, j2: int|
            0 <= j1 < j2 < sources(s, m, kind, n).len() ==> #[trigger] sources(s, m, kind, n)[j1]
                < #[trigger] sources(s, m, kind, n)[j2],
        forall|i: int|
            0 <= i < n && #[trigger] warning_kind_for(s, m[i]) == Some(kind) ==> exists|j: int|
                0 <= j < sources(s, m, kind, n).len() && #[trigger] sources(s, m, kind, n)[j] == i,
    decreases n,
{
    if n > 0 {
        lemma_sources(s, m, kind, (n - 1) as nat);
        let earlier = sources(s, m, kind, (n - 1) as nat);
        let now = sources(s, m, kind, n);
        assert forall|i: int|
            0 <= i < n && #[trigger] warning_kind_for(s, m[i]) == Some(kind) implies exists|j: int|
                0 <= j < now.len() && #[trigger] now[j] == i by {
            if i == n - 1 {
                assert(now[now.len() - 1] == i);
            } else {
                let j = choose|j: int| 0 <= j < earlier.len() && #[trigger] earlier[j] == i;
                assert(now[j] == i);
            }
        }
    }
}

/// Ignoring: a match of the vulnerability query is listed in the report if
/// and only if its advisory is not ignored, and everything listed is such a
/// match.
pub proof fn lemma_ignored_law(s: Settings, m: Seq<Vulnerability>)
    ensures
        forall|v: Vulnerability|
            #[trigger] m.contains(v) ==> (unignored(s, m).contains(v) <==> !s.ignores(
                v.advisory.id@,
            )),
        forall|v: Vulnerability| #[trigger] unignored(s, m).contains(v) ==> m.contains(v),
    decreases m.len(),
{
    let pred = |v: Vulnerability| !s.ignores(v.advisory.id@);
    assert forall|v: Vulnerability| #[trigger] m.contains(v) implies (unignored(s, m).contains(v)
        <==> !s.ignores(v.advisory.id@)) by {
        let i = choose|i: int| 0 <= i < m.len() && m[i] == v;
        if !s.ignores(v.advisory.id@) {
            m.lemma_filter_contains(pred, i);
        }
        if unignored(s, m).contains(v) {
            let j = choose|j: int| 0 <= j < unignored(s, m).len() && unignored(s, m)[j] == v;
            m.lemma_filter_pred(pred, j);
        }
    }
    if m.len() > 0 {
        lemma_ignored_law(s, m.drop_last());
        reveal(Seq::filter);
        assert forall|v: Vulnerability| #[trigger] unignored(s, m).contains(v) implies m.contains(
            v,
        ) by {
            let earlier = unignored(s, m.drop_last());
            if earlier.contains(v) {
                let i = choose|i: int| 0 <= i < m.drop_last().len() && m.drop_last()[i] == v;
                assert(m[i] == v);
            } else {
                assert(m[m.len() - 1] == v);
            }
        }
    }
}

/// When a match is reported: its advisory is not ignored, it has a category,
/// the settings ask for that category, and the category maps to a kind.
pub proof fn lemma_reported_when(s: Settings, v: Vulnerability)
    ensures
        warning_kind_for(s, v).is_some() <==> {
            &&& !s.ignores(v.advisory.id@)
            &&& v.advisory.informational.is_some()
            &&& s.wants(v.advisory.informational.unwrap())
            &&& v.advisory.informational.unwrap().kind().is_some()
        },
{
}

/// Warning inclusion: every match of the informational query that is
/// reported gives one warning, under its kind and at one position of that
/// kind's group; a match that is not reported gives none.
pub proof fn lemma_warning_inclusion(w: WarningInfo, s: Settings, m: Seq<Vulnerability>, i: int)
    requires
        warnings_of(w, s, m),
        0 <= i < m.len(),
    ensures
        warning_kind_for(s, m[i]) is Some ==> exists|g: int, j: int|
            0 <= g < w.groups.len() && 0 <= j < w.groups@[g].warnings.len() && sources(
                s,
                m,
                w.groups@[g].kind,
                m.len(),
            )[j] == i && #[trigger] w.groups@[g].warnings@[j] == warning_for(
                m[i],
                warning_kind_for(s, m[i])->Some_0,
            ),
        forall|g: int, j: int|
            0 <= g < w.groups.len() && 0 <= j < w.groups@[g].warnings.len() && #[trigger] sources(
                s,
                m,
                w.groups@[g].kind,
                m.len(),
            )[j] == i ==> warning_kind_for(s, m[i]) == Some(w.groups@[g].kind),
        forall|g1: int, j1: int, g2: int, j2: int|
            0 <= g1 < w.groups.len() && 0 <= j1 < w.groups@[g1].warnings.len() && 0 <= g2
                < w.groups.len() && 0 <= j2 < w.groups@[g2].warnings.len() && #[trigger] sources(
                s,
                m,
                w.groups@[g1].kind,
                m.len(),
            )[j1] == i && #[trigger] sources(s, m, w.groups@[g2].kind, m.len())[j2] == i ==> g1
                == g2 && j1 == j2,
{
    let n = m.len();
    if warning_kind_for(s, m[i]) is Some {
        let k = warning_kind_for(s, m[i])->Some_0;
        lemma_sources(s, m, k, n);
        let j = choose|j: int| 0 <= j < sources(s, m, k, n).len() && #[trigger] sources(s, m, k, n)[j] == i;
        assert(w.has_kind(k));
        let g = choose|g: int| 0 <= g < w.groups.len() && #[trigger] w.groups@[g].kind == k;
        assert(w.groups@[g].warnings@ == bucket(s, m, k, n));
        assert(w.groups@[g].warnings@[j] == warning_for(m[i], k));
    }
    assert forall|g1: int, j1: int, g2: int, j2: int|
        0 <= g1 < w.groups.len() && 0 <= j1 < w.groups@[g1].warnings.len() && 0 <= g2
            < w.groups.len() && 0 <= j2 < w.groups@[g2].warnings.len() && #[trigger] sources(
            s,
            m,
            w.groups@[g1].kind,
            m.len(),
        )[j1] == i && #[trigger] sources(s, m, w.groups@[g2].kind, m.len())[j2] == i implies g1
            == g2 && j1 == j2 by {
        let k1 = w.groups@[g1].kind;
        let k2 = w.groups@[g2].kind;
        assert(w.groups@[g1].warnings@ == bucket(s, m, k1, n));
        assert(w.groups@[g2].warnings@ == bucket(s, m, k2, n));
        lemma_sources(s, m, k1, n);
        lemma_sources(s, m, k2, n);
        assert(k1 == k2);
        if g1 != g2 {
            if g1 < g2 {
                assert(w.groups@[g1].kind != w.groups@[g2].kind);
            } else {
                assert(w.groups@[g2].kind != w.groups@[g1].kind);
            }
        }
        if j1 != j2 {
            let src = sources(s, m, k1, n);
            if j1 < j2 {
                assert(src[j1] < src[j2]);
            } else {
                assert(src[j2] < src[j1]);
            }
        }
    }
    assert forall|g: int, j: int|
        0 <= g < w.groups.len() && 0 <= j < w.groups@[g].warnings.len() && #[trigger] sources(
            s,
            m,
            w.groups@[g].kind,
            m.len(),
        )[j] == i implies warning_kind_for(s, m[i]) == Some(w.groups@[g].kind) by {
        lemma_sources(s, m, w.groups@[g].kind, n);
        assert(w.groups@[g].warnings@ == bucket(s, m, w.groups@[g].kind, n));
    }
}

/// Grouping: every warning stands in the group of its own kind, and no two
/// groups have the same kind, so each warning is under exactly one kind.
pub proof fn lemma_grouping(w: WarningInfo, s: Settings, m: Seq<Vulnerability>)
    requires
        warnings_of(w, s, m),
    ensures
        forall|g: int, j: int|
            0 <= g < w.groups.len() && 0 <= j < w.groups@[g].warnings.len() ==> (
            #[trigger] w.groups@[g].warnings@[j]).kind == w.groups@[g].kind,
        forall|g1: int, g2: int|
            0 <= g1 < w.groups.len() && 0 <= g2 < w.groups.len() && #[trigger] w.groups@[g1].kind
                == #[trigger] w.groups@[g2].kind ==> g1 == g2,
        forall|g: int| 0 <= g < w.groups.len() ==> #[trigger] w.groups@[g].warnings.len() > 0,
{
    assert forall|g: int, j: int|
        0 <= g < w.groups.len() && 0 <= j < w.groups@[g].warnings.len() implies (
        #[trigger] w.groups@[g].warnings@[j]).kind == w.groups@[g].kind by {
        assert(w.groups@[g].warnings@ == bucket(s, m, w.groups@[g].kind, m.len()));
    }
    assert forall|g1: int, g2: int|
        0 <= g1 < w.groups.len() && 0 <= g2 < w.groups.len() && #[trigger] w.groups@[g1].kind
            == #[trigger] w.groups@[g2].kind implies g1 == g2 by {
        if g1 < g2 {
            assert(w.groups@[g1].kind != w.groups@[g2].kind);
        } else if g2 < g1 {
            assert(w.groups@[g2].kind != w.groups@[g1].kind);
        }
    }
    assert forall|g: int| 0 <= g < w.groups.len() implies #[trigger] w.groups@[g].warnings.len() > 0 by {
        let k = w.groups@[g].kind;
        assert(w.has_kind(k));
        assert(w.groups@[g].warnings@ == bucket(s, m, k, m.len()));
    }
}

/// Two groupings of the same matches hold the same warnings under the same
/// kinds.
pub proof fn lemma_warnings_unique(w1: WarningInfo, w2: WarningInfo, s: Settings, m: Seq<Vulnerability>)
    requires
        warnings_of(w1, s, m),
        warnings_of(w2, s, m),
    ensures
        w1@ == w2@,
{
    assert forall|k: WarningKind| #[trigger] w1@.contains_key(k) implies w1@[k] == bucket(s, m, k, m.len()) by {
        let i = choose|i: int| 0 <= i < w1.groups.len() && #[trigger] w1.groups@[i].kind == k;
        assert(w1.groups@[i].warnings@ == bucket(s, m, w1.groups@[i].kind, m.len()));
    }
    assert forall|k: WarningKind| #[trigger] w2@.contains_key(k) implies w2@[k] == bucket(s, m, k, m.len()) by {
        let i = choose|i: int| 0 <= i < w2.groups.len() && #[trigger] w2.groups@[i].kind == k;
        assert(w2.groups@[i].warnings@ == bucket(s, m, w2.groups@[i].kind, m.len()));
    }
    assert(w1@ =~= w2@);
}

/// Idempotence: two reports made from the same database, lockfile, settings
/// and query results agree in every part.
pub proof fn lemma_generate_idempotent(
    r1: Report,
    r2: Report,
    database: DatabaseInfo,
    lockfile: Lockfile,
    settings: Settings,
    matches: Seq<Vulnerability>,
    informational: Seq<Vulnerability>,
)
    requires
        r1.reports(database, lockfile, settings, matches, informational),
        r2.reports(database, lockfile, settings, matches, informational),
    ensures
        r1.database == r2.database,
        r1.lockfile.spec_dependency_count() == r2.lockfile.spec_dependency_count(),
        r1.settings.same_as(r2.settings),
        r1.vulnerabilities.found == r2.vulnerabilities.found,
        r1.vulnerabilities.count == r2.vulnerabilities.count,
        r1.vulnerabilities.list@ == r2.vulnerabilities.list@,
        r1.warnings@ == r2.warnings@,
{
    lemma_warnings_unique(r1.warnings, r2.warnings, settings, informational);
}

} // verus!
