//! Advisories, the packages they affect, and the matches a database reports.

use vstd::prelude::*;

verus! {

/// Identifier of an advisory, such as `RUSTSEC-2019-0001`.
pub struct Id {
    pub name: String,
}

impl View for Id {
    type V = Seq<char>;

    open spec fn view(&self) -> Seq<char> {
        self.name@
    }
}

impl Id {
    pub fn new(name: String) -> (r: Id)
        ensures
            r@ == name@,
    {
        Id { name }
    }

    pub fn as_str(&self) -> (r: &str)
        ensures
            r@ == self@,
    {
        self.name.as_str()
    }

    /// Whether two identifiers are written alike.
    pub fn same(&self, other: &Id) -> (r: bool)
        ensures
            r == (self@ == other@),
    {
        self.name == other.name
    }
}

impl Clone for Id {
    fn clone(&self) -> (r: Self)
        ensures
            r == *self,
    {
        Id { name: self.name.clone() }
    }
}

/// How severe an advisory is.
#[derive(Clone, Copy, Debug, PartialEq, Eq, Structural)]
pub enum Severity {
    Unrated,
    Low,
    Medium,
    High,
    Critical,
}

/// The kind of a warning in a report.
#[derive(Clone, Copy, Debug, PartialEq, Eq, Structural)]
pub enum WarningKind {
    Notice,
    Unmaintained,
    Unsound,
    Yanked,
}

/// The category of an informational advisory: one that reports a status of
/// a package (such as being unmaintained) rather than an exploitable flaw.
pub enum Informational {
    Notice,
    Unmaintained,
    Unsound,
    /// A category that this library does not report as a warning.
    Other(String),
}

impl Informational {
    /// Exact equality of categories: the same variant, and for `Other` the
    /// same name.
    pub open spec fn same_as(self, other: Informational) -> bool {
        match (self, other) {
            (Informational::Notice, Informational::Notice) => true,
            (Informational::Unmaintained, Informational::Unmaintained) => true,
            (Informational::Unsound, Informational::Unsound) => true,
            (Informational::Other(a), Informational::Other(b)) => a@ == b@,
            _ => false,
        }
    }

    /// The warning kind that a category is reported under, if any.
    pub open spec fn kind(self) -> Option<WarningKind> {
        match self {
            Informational::Notice => Some(WarningKind::Notice),
            Informational::Unmaintained => Some(WarningKind::Unmaintained),
            Informational::Unsound => Some(WarningKind::Unsound),
            Informational::Other(_) => None,
        }
    }

    pub fn same(&self, other: &Informational) -> (r: bool)
        ensures
            r == self.same_as(*other),
    {
        match (self, other) {
            (Informational::Notice, Informational::Notice) => true,
            (Informational::Unmaintained, Informational::Unmaintained) => true,
            (Informational::Unsound, Informational::Unsound) => true,
            (Informational::Other(a), Informational::Other(b)) => *a == *b,
            _ => false,
        }
    }

    pub fn warning_kind(&self) -> (r: Option<WarningKind>)
        ensures
            r == self.kind(),
    {
        match self {
            Informational::Notice => Some(WarningKind::Notice),
            Informational::Unmaintained => Some(WarningKind::Unmaintained),
            Informational::Unsound => Some(WarningKind::Unsound),
            Informational::Other(_) => None,
        }
    }
}

impl Clone for Informational {
    fn clone(&self) -> (r: Self)
        ensures
            r == *self,
    {
        match self {
            Informational::Notice => Informational::Notice,
            Informational::Unmaintained => Informational::Unmaintained,
            Informational::Unsound => Informational::Unsound,
            Informational::Other(s) => Informational::Other(s.clone()),
        }
    }
}

/// A package of a lockfile: its name and its exact version.
pub struct Package {
    pub name: String,
    pub version: String,
}

/// The version ranges of an advisory: the patched ones and the ones that
/// were never affected.
pub struct Versions {
    pub patched: Vec<String>,
    pub unaffected: Vec<String>,
}

/// The part of an advisory that a report carries.
pub struct Advisory {
    pub id: Id,
    pub package: String,
    pub title: String,
    pub severity: Option<Severity>,
    pub informational: Option<Informational>,
}

/// One match of a database query: an advisory that affects a package of
/// the lockfile, with the advisory's version ranges.
pub struct Vulnerability {
    pub advisory: Advisory,
    pub versions: Versions,
    pub package: Package,
}

/// An informational match reported as a warning.
pub struct Warning {
    pub kind: WarningKind,
    pub package: Package,
    pub advisory: Option<Advisory>,
    pub versions: Option<Versions>,
}

impl Warning {
    pub fn new(
        kind: WarningKind,
        package: Package,
        advisory: Option<Advisory>,
        versions: Option<Versions>,
    ) -> (r: Warning)
        ensures
            r == (Warning { kind, package, advisory, versions }),
    {
        Warning { kind, package, advisory, versions }
    }
}

} // verus!
