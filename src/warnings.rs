//! Warnings grouped by kind.

use vstd::prelude::*;
use crate::advisory::{Warning, WarningKind};

verus! {

/// The warnings of one kind, in the order they were found.
pub struct WarningGroup {
    pub kind: WarningKind,
    pub warnings: Vec<Warning>,
}

/// Warnings grouped by kind: at most one group per kind. The order of the
/// groups carries no meaning.
pub struct WarningInfo {
    pub groups: Vec<WarningGroup>,
}

impl View for WarningInfo {
    type V = Map<WarningKind, Seq<Warning>>;

    /// Each kind that has a group, with the warnings of its group.
    open spec fn view(&self) -> Map<WarningKind, Seq<Warning>> {
        Map::new(
            |k: WarningKind| self.has_kind(k),
            |k: WarningKind|
                self.groups@[choose|i: int|
                    0 <= i < self.groups.len() && #[trigger] self.groups@[i].kind == k].warnings@,
        )
    }
}

impl WarningInfo {
    /// No two groups have the same kind.
    pub open spec fn well_formed(self) -> bool {
        forall|i: int, j: int|
            0 <= i < j < self.groups.len() ==> #[trigger] self.groups@[i].kind
                != #[trigger] self.groups@[j].kind
    }

    pub open spec fn has_kind(self, kind: WarningKind) -> bool {
        exists|i: int| 0 <= i < self.groups.len() && #[trigger] self.groups@[i].kind == kind
    }

    pub fn new() -> (r: WarningInfo)
        ensures
            r.well_formed(),
            r.groups.len() == 0,
    {
        WarningInfo { groups: Vec::new() }
    }

    /// Number of kinds that have warnings.
    pub fn len(&self) -> (r: usize)
        ensures
            r == self.groups.len(),
    {
        self.groups.len()
    }

    /// The position of the group of `kind`, if there is one.
    pub fn position(&self, kind: WarningKind) -> (r: Option<usize>)
        ensures
            match r {
                Some(i) => i < self.groups.len() && self.groups@[i as int].kind == kind,
                None => !self.has_kind(kind),
            },
    {
        let mut i: usize = 0;
        while i < self.groups.len()
            invariant
                i <= self.groups.len(),
                forall|j: int| 0 <= j < i ==> self.groups@[j].kind != kind,
            decreases self.groups.len() - i,
        {
            if self.groups[i].kind == kind {
                return Some(i);
            }
            i += 1;
        }
        None
    }

    /// The warnings of `kind`, if there are any.
    pub fn get(&self, kind: WarningKind) -> (r: Option<&Vec<Warning>>)
        ensures
            match r {
                Some(w) => exists|i: int|
                    0 <= i < self.groups.len() && self.groups@[i].kind == kind
                        && #[trigger] self.groups@[i].warnings == *w,
                None => !self.has_kind(kind),
            },
    {
        match self.position(kind) {
            Some(i) => Some(&self.groups[i].warnings),
            None => None,
        }
    }

    /// Appends `warning` to the group of its kind, and makes that group if
    /// there is none yet.
    pub fn add(&mut self, warning: Warning)
        requires
            old(self).well_formed(),
        ensures
            final(self).well_formed(),
            old(self).has_kind(warning.kind) ==> {
                &&& final(self).groups.len() == old(self).groups.len()
                &&& forall|i: int|
                    0 <= i < old(self).groups.len() ==> #[trigger] final(self).groups@[i].kind
                        == old(self).groups@[i].kind
                &&& forall|i: int|
                    0 <= i < old(self).groups.len() ==> (#[trigger] final(self).groups@[i]).warnings@
                        == if old(self).groups@[i].kind == warning.kind {
                        old(self).groups@[i].warnings@.push(warning)
                    } else {
                        old(self).groups@[i].warnings@
                    }
            },
            !old(self).has_kind(warning.kind) ==> {
                &&& final(self).groups.len() == old(self).groups.len() + 1
                &&& forall|i: int|
                    0 <= i < old(self).groups.len() ==> #[trigger] final(self).groups@[i]
                        == old(self).groups@[i]
                &&& final(self).groups@.last().kind == warning.kind
                &&& final(self).groups@.last().warnings@ == seq![warning]
            },
    {
        let kind = warning.kind;
        match self.position(kind) {
            Some(i) => {
                let mut group = self.groups.remove(i);
                group.warnings.push(warning);
                self.groups.insert(i, group);
                assert forall|j: int| 0 <= j < old(self).groups.len() && j != i implies
                    #[trigger] self.groups@[j] == old(self).groups@[j] by {
                    if j < i {
                    } else {
                    }
                }
                assert forall|j: int| 0 <= j < old(self).groups.len() && old(self).groups@[j].kind == kind implies
                    j == i by {
                    if j != i {
                        if j < i {
                            assert(old(self).groups@[j].kind != old(self).groups@[i as int].kind);
                        } else {
                            assert(old(self).groups@[i as int].kind != old(self).groups@[j].kind);
                        }
                    }
                }
            },
            None => {
                let mut warnings: Vec<Warning> = Vec::new();
                warnings.push(warning);
                self.groups.push(WarningGroup { kind, warnings });
            },
        }
    }
}

} // verus!
