//! The crate graph: dependencies, reverse dependencies and the crates that
//! transitively depend on a crate.
use vstd::prelude::*;
use crate::db::{CrateDependency, HirDatabase};
use crate::entity::{Crate, Module};

verus! {

/// `c` is `k`, or depends on `k` through a chain of dependencies.
pub open spec fn reaches(db: &HirDatabase, c: int, k: int) -> bool
    decreases c, 1int, 0int,
{
    if c == k {
        true
    } else if 0 <= c < db.crates@.len() {
        deps_reach(db, c, db.crates@[c].dependencies@.len() as int, k)
    } else {
        false
    }
}

/// One of the first `i` dependencies of `c` reaches `k`.
pub open spec fn deps_reach(db: &HirDatabase, c: int, i: int, k: int) -> bool
    decreases c, 0int, i,
{
    if 0 <= c < db.crates@.len() && 0 < i <= db.crates@[c].dependencies@.len() {
        deps_reach(db, c, i - 1, k) || {
            let d = db.crates@[c].dependencies@[i - 1].krate.id as int;
            0 <= d < c && reaches(db, d, k)
        }
    } else {
        false
    }
}

/// `s` holds exactly the crates `c` with `p(c)`, each once, by increasing id.
pub open spec fn ascending_crates(s: Seq<Crate>, n: int, p: spec_fn(int) -> bool) -> bool {
    &&& forall|i: int, j: int| 0 <= i < j < s.len() ==> s[i].id < s[j].id
    &&& forall|i: int| 0 <= i < s.len() ==> #[trigger] s[i].id < n && p(s[i].id as int)
    &&& forall|c: int| 0 <= c < n && #[trigger] p(c) ==> s.contains(Crate { id: c as u32 })
}

/// `c` lists `k` among its direct dependencies.
pub open spec fn depends_directly(db: &HirDatabase, c: int, k: int) -> bool {
    0 <= c < db.crates@.len() && exists|i: int|
        0 <= i < db.crates@[c].dependencies@.len() && #[trigger] db.crates@[c].dependencies@[i].krate.id == k
}

/// For every crate of the snapshot, whether it reaches crate `k`.
pub fn reach_flags(db: &HirDatabase, k: u32) -> (r: Vec<bool>)
    ensures
        r@.len() == db.crates@.len(),
        forall|j: int| 0 <= j < r@.len() ==> r@[j] == reaches(db, j, k as int),
{
    let mut reach: Vec<bool> = Vec::new();
    let mut c: usize = 0;
    while c < db.crates.len()
        invariant
            c <= db.crates@.len(),
            reach@.len() == c,
            forall|j: int| 0 <= j < c ==> reach@[j] == reaches(db, j, k as int),
        decreases db.crates@.len() - c,
    {
        let deps = &db.crates[c].dependencies;
        let mut found = c == k as usize;
        let mut i: usize = 0;
        while i < deps.len()
            invariant
                i <= deps@.len(),
                c < db.crates@.len(),
                *deps == db.crates@[c as int].dependencies,
                reach@.len() == c,
                forall|j: int| 0 <= j < c ==> reach@[j] == reaches(db, j, k as int),
                found == (c == k || deps_reach(db, c as int, i as int, k as int)),
            decreases deps@.len() - i,
        {
            let d = deps[i].krate.id as usize;
            if d < c && reach[d] {
                found = true;
            }
            i = i + 1;
        }
        assert(found == reaches(db, c as int, k as int));
        reach.push(found);
        c = c + 1;
    }
    reach
}

impl Crate {
    pub open spec fn valid(self, db: &HirDatabase) -> bool {
        self.id < db.crates@.len()
    }

    /// Every crate of the snapshot.
    pub fn all(db: &HirDatabase) -> (r: Vec<Crate>)
        requires
            db.crates@.len() <= u32::MAX,
        ensures
            r@.len() == db.crates@.len(),
            forall|i: int| 0 <= i < r@.len() ==> r@[i].id == i,
    {
        let mut r: Vec<Crate> = Vec::new();
        let mut i: usize = 0;
        while i < db.crates.len()
            invariant
                i <= db.crates@.len() <= u32::MAX,
                r@.len() == i,
                forall|j: int| 0 <= j < i ==> r@[j].id == j,
            decreases db.crates@.len() - i,
        {
            r.push(Crate { id: i as u32 });
            i = i + 1;
        }
        r
    }

    /// The direct dependencies of this crate, in declaration order.
    pub fn dependencies(self, db: &HirDatabase) -> (r: Vec<CrateDependency>)
        requires
            self.valid(db),
        ensures
            r@ == db.crates@[self.id as int].dependencies@,
    {
        let deps = &db.crates[self.id as usize].dependencies;
        let mut r: Vec<CrateDependency> = Vec::new();
        let mut i: usize = 0;
        while i < deps.len()
            invariant
                i <= deps@.len(),
                r@ == deps@.take(i as int),
            decreases deps@.len() - i,
        {
            r.push(deps[i]);
            i = i + 1;
            assert(r@ =~= deps@.take(i as int));
        }
        assert(deps@.take(i as int) =~= deps@);
        r
    }

    /// The crates that list this one among their direct dependencies.
    pub fn reverse_dependencies(self, db: &HirDatabase) -> (r: Vec<Crate>)
        requires
            db.crates@.len() <= u32::MAX,
        ensures
            ascending_crates(r@, db.crates@.len() as int, |c: int| depends_directly(db, c, self.id as int)),
    {
        let mut r: Vec<Crate> = Vec::new();
        let mut c: usize = 0;
        while c < db.crates.len()
            invariant
                c <= db.crates@.len() <= u32::MAX,
                forall|i: int, j: int| 0 <= i < j < r@.len() ==> r@[i].id < r@[j].id,
                forall|i: int| 0 <= i < r@.len() ==> r@[i].id < c && depends_directly(db, r@[i].id as int, self.id as int),
                forall|x: int| 0 <= x < c && depends_directly(db, x, self.id as int) ==> r@.contains(Crate { id: x as u32 }),
            decreases db.crates@.len() - c,
        {
            let deps = &db.crates[c].dependencies;
            let mut found = false;
            let mut i: usize = 0;
            while i < deps.len()
                invariant
                    i <= deps@.len(),
                    *deps == db.crates@[c as int].dependencies,
                    found == exists|j: int| 0 <= j < i && #[trigger] deps@[j].krate.id == self.id,
                decreases deps@.len() - i,
            {
                if deps[i].krate.id == self.id {
                    found = true;
                }
                i = i + 1;
            }
            let ghost r0 = r@;
            if found {
                r.push(Crate { id: c as u32 });
                assert(r@[r@.len() - 1] == Crate { id: c as u32 });
            }
            assert forall|x: int| 0 <= x < c + 1 && depends_directly(db, x, self.id as int) implies r@.contains(Crate { id: x as u32 }) by {
                if x < c {
                    assert(r0.contains(Crate { id: x as u32 }));
                    let w = choose|w: int| 0 <= w < r0.len() && r0[w] == Crate { id: x as u32 };
                    assert(r@[w] == r0[w]);
                } else {
                    assert(r@[r@.len() - 1] == Crate { id: c as u32 });
                }
            }
            c = c + 1;
        }
        r
    }

    /// This crate and every crate that depends on it, directly or not, by
    /// increasing id.
    pub fn transitive_reverse_dependencies(self, db: &HirDatabase) -> (r: Vec<Crate>)
        requires
            db.crates@.len() <= u32::MAX,
        ensures
            ascending_crates(r@, db.crates@.len() as int, |c: int| reaches(db, c, self.id as int)),
    {
        let k = self.id as usize;
        let reach = reach_flags(db, self.id);
        let mut r: Vec<Crate> = Vec::new();
        let mut c: usize = 0;
        while c < db.crates.len()
            invariant
                c <= db.crates@.len() <= u32::MAX,
                k == self.id,
                reach@.len() == db.crates@.len(),
                forall|j: int| 0 <= j < reach@.len() ==> reach@[j] == reaches(db, j, k as int),
                forall|i: int, j: int| 0 <= i < j < r@.len() ==> r@[i].id < r@[j].id,
                forall|i: int| 0 <= i < r@.len() ==> r@[i].id < c && reaches(db, r@[i].id as int, k as int),
                forall|x: int| 0 <= x < c && reaches(db, x, k as int) ==> r@.contains(Crate { id: x as u32 }),
            decreases db.crates@.len() - c,
        {
            let found = reach[c];
            let ghost r0 = r@;
            if found {
                r.push(Crate { id: c as u32 });
                assert(r@[r@.len() - 1] == Crate { id: c as u32 });
            }
            assert forall|x: int| 0 <= x < c + 1 && reaches(db, x, k as int) implies r@.contains(Crate { id: x as u32 }) by {
                if x < c {
                    assert(r0.contains(Crate { id: x as u32 }));
                    let w = choose|w: int| 0 <= w < r0.len() && r0[w] == Crate { id: x as u32 };
                    assert(r@[w] == r0[w]);
                } else {
                    assert(r@[r@.len() - 1] == Crate { id: c as u32 });
                }
            }
            c = c + 1;
        }
        r
    }

    /// The root module of this crate.
    pub fn root_module(self, db: &HirDatabase) -> (r: Module)
        requires
            self.valid(db),
        ensures
            r.id == db.crates@[self.id as int].root_module,
    {
        Module { id: db.crates[self.id as usize].root_module }
    }
}

} // verus!
