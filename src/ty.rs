//! The type facade: a type tree node bound to its trait environment.
use vstd::prelude::*;
use crate::db::{
    DerefImpl, HirDatabase, LangItem, LangTrait, Mutability, Normalization, Scalar, SolverOutcome, TraitBound,
    TraitSolution, TyKind,
};
use crate::entity::{Adt, BuiltinKind, BuiltinType, Trait, TypeAlias};

verus! {

/// A resolved type: a node of the interned type table and the environment
/// that trait queries about it run in. Derived types keep `env` unchanged.
#[derive(Clone, Copy, Debug, PartialEq, Eq, Hash, Structural)]
pub struct Type {
    pub ty: u32,
    pub env: u32,
}


/// The types that `t` structurally depends on, in pre-order: references are
/// looked through, a constructor comes before its arguments, and a trait
/// bound yields the bounded type followed by its arguments other than Self.
pub open spec fn walk_spec(db: &HirDatabase, t: int, env: u32) -> Seq<Type>
    decreases t, 2int, 0int,
{
    if 0 <= t < db.tys@.len() {
        match db.tys@[t] {
            TyKind::Adt { args, .. } => seq![Type { ty: t as u32, env }] + walk_list(db, args@, 0, args@.len() as int, t, env),
            TyKind::AssociatedType { parent_trait, args, .. } => (if parent_trait is Some {
                seq![Type { ty: t as u32, env }]
            } else {
                Seq::empty()
            }) + walk_list(db, args@, 0, args@.len() as int, t, env),
            TyKind::OpaqueType { bounds, args } => walk_bounds(db, bounds@, bounds@.len() as int, t, env)
                + walk_list(db, args@, 0, args@.len() as int, t, env),
            TyKind::Placeholder { bounds, .. } => walk_bounds(db, bounds@, bounds@.len() as int, t, env),
            TyKind::Dyn { bounds } => walk_bounds(db, bounds@, bounds@.len() as int, t, env),
            TyKind::Ref { pointee, .. } => if pointee < t {
                walk_spec(db, pointee as int, env)
            } else {
                Seq::empty()
            },
            TyKind::Raw { pointee, .. } => if pointee < t {
                walk_spec(db, pointee as int, env)
            } else {
                Seq::empty()
            },
            TyKind::Array { elem, .. } => if elem < t {
                walk_spec(db, elem as int, env)
            } else {
                Seq::empty()
            },
            TyKind::Slice { elem } => if elem < t {
                walk_spec(db, elem as int, env)
            } else {
                Seq::empty()
            },
            TyKind::FnDef { args, .. } => walk_list(db, args@, 0, args@.len() as int, t, env),
            TyKind::Tuple { args } => walk_list(db, args@, 0, args@.len() as int, t, env),
            TyKind::Closure { args } => walk_list(db, args@, 0, args@.len() as int, t, env),
            TyKind::FnPtr { args } => walk_list(db, args@, 0, args@.len() as int, t, env),
            _ => Seq::empty(),
        }
    } else {
        Seq::empty()
    }
}

/// The walks of `args[lo..k]` that refer to earlier nodes than `bound`, one after another.
pub open spec fn walk_list(db: &HirDatabase, args: Seq<u32>, lo: int, k: int, bound: int, env: u32) -> Seq<Type>
    decreases bound, 0int, k,
{
    if lo < k <= args.len() && 0 <= lo {
        walk_list(db, args, lo, k - 1, bound, env) + if args[k - 1] < bound {
            walk_spec(db, args[k - 1] as int, env)
        } else {
            Seq::empty()
        }
    } else {
        Seq::empty()
    }
}

/// For each of the first `k` bounds: the bounded type `t`, then the walks of
/// the bound's arguments after Self.
pub open spec fn walk_bounds(db: &HirDatabase, bounds: Seq<TraitBound>, k: int, t: int, env: u32) -> Seq<Type>
    decreases t, 1int, k,
{
    if 0 < k <= bounds.len() {
        walk_bounds(db, bounds, k - 1, t, env) + seq![Type { ty: t as u32, env }] + walk_list(
            db,
            bounds[k - 1].args@,
            1,
            bounds[k - 1].args@.len() as int,
            t,
            env,
        )
    } else {
        Seq::empty()
    }
}

fn walk_args(db: &HirDatabase, args: &Vec<u32>, lo: usize, bound: u32, env: u32, out: &mut Vec<Type>)
    ensures
        final(out)@ == old(out)@ + walk_list(db, args@, lo as int, args@.len() as int, bound as int, env),
    decreases bound, 0int,
{
    let ghost out0 = out@;
    if lo >= args.len() {
        assert(out@ =~= out0 + walk_list(db, args@, lo as int, args@.len() as int, bound as int, env));
        return;
    }
    let mut i: usize = lo;
    assert(walk_list(db, args@, lo as int, lo as int, bound as int, env) =~= Seq::<Type>::empty());
    while i < args.len()
        invariant
            lo <= i <= args@.len(),
            out@ == out0 + walk_list(db, args@, lo as int, i as int, bound as int, env),
        decreases args@.len() - i,
    {
        let a = args[i];
        if a < bound {
            walk_into(db, a, env, out);
        }
        i = i + 1;
        assert(out@ =~= out0 + walk_list(db, args@, lo as int, i as int, bound as int, env));
    }
}

fn walk_bounds_into(db: &HirDatabase, bounds: &Vec<TraitBound>, t: u32, env: u32, out: &mut Vec<Type>)
    ensures
        final(out)@ == old(out)@ + walk_bounds(db, bounds@, bounds@.len() as int, t as int, env),
    decreases t, 1int,
{
    let ghost out0 = out@;
    let mut k: usize = 0;
    assert(out@ =~= out0 + walk_bounds(db, bounds@, 0, t as int, env));
    while k < bounds.len()
        invariant
            k <= bounds@.len(),
            out@ == out0 + walk_bounds(db, bounds@, k as int, t as int, env),
        decreases bounds@.len() - k,
    {
        out.push(Type { ty: t, env });
        walk_args(db, &bounds[k].args, 1, t, env, out);
        k = k + 1;
        assert(out@ =~= out0 + walk_bounds(db, bounds@, k as int, t as int, env));
    }
}

fn walk_into(db: &HirDatabase, t: u32, env: u32, out: &mut Vec<Type>)
    ensures
        final(out)@ == old(out)@ + walk_spec(db, t as int, env),
    decreases t, 2int,
{
    let ghost out0 = out@;
    if (t as usize) >= db.tys.len() {
        assert(out@ =~= out0 + walk_spec(db, t as int, env));
        return;
    }
    match &db.tys[t as usize] {
        TyKind::Adt { args, .. } => {
            out.push(Type { ty: t, env });
            walk_args(db, args, 0, t, env, out);
        },
        TyKind::AssociatedType { parent_trait, args, .. } => {
            if parent_trait.is_some() {
                out.push(Type { ty: t, env });
            }
            walk_args(db, args, 0, t, env, out);
        },
        TyKind::OpaqueType { bounds, args } => {
            walk_bounds_into(db, bounds, t, env, out);
            walk_args(db, args, 0, t, env, out);
        },
        TyKind::Placeholder { bounds, .. } => walk_bounds_into(db, bounds, t, env, out),
        TyKind::Dyn { bounds } => walk_bounds_into(db, bounds, t, env, out),
        TyKind::Ref { pointee, .. } => {
            if *pointee < t {
                walk_into(db, *pointee, env, out);
            }
        },
        TyKind::Raw { pointee, .. } => {
            if *pointee < t {
                walk_into(db, *pointee, env, out);
            }
        },
        TyKind::Array { elem, .. } => {
            if *elem < t {
                walk_into(db, *elem, env, out);
            }
        },
        TyKind::Slice { elem } => {
            if *elem < t {
                walk_into(db, *elem, env, out);
            }
        },
        TyKind::FnDef { args, .. } => walk_args(db, args, 0, t, env, out),
        TyKind::Tuple { args } => walk_args(db, args, 0, t, env, out),
        TyKind::Closure { args } => walk_args(db, args, 0, t, env, out),
        TyKind::FnPtr { args } => walk_args(db, args, 0, t, env, out),
        _ => {},
    }
    assert(out@ =~= out0 + walk_spec(db, t as int, env));
}

impl Type {
    /// Every type this one structurally depends on, in the order of
    /// [`walk_spec`]; all of them share this type's environment.
    pub fn walk(&self, db: &HirDatabase) -> (r: Vec<Type>)
        ensures
            r@ == walk_spec(db, self.ty as int, self.env),
    {
        let mut out: Vec<Type> = Vec::new();
        walk_into(db, self.ty, self.env, &mut out);
        assert(out@ =~= walk_spec(db, self.ty as int, self.env));
        out
    }
}


/// How many dereference steps autoderef takes at most.
pub const AUTODEREF_LIMIT: usize = 10;

/// The target of the first custom dereference of `adt` among `impls[i..]`.
pub open spec fn deref_target_from(impls: Seq<DerefImpl>, adt: Adt, i: int) -> Option<u32>
    decreases impls.len() - i,
{
    if i < 0 || i >= impls.len() {
        None
    } else if impls[i].adt == adt {
        Some(impls[i].target)
    } else {
        deref_target_from(impls, adt, i + 1)
    }
}

/// One dereference step: through a reference or raw pointer, or through the
/// custom dereference of an ADT.
pub open spec fn deref_step(db: &HirDatabase, t: u32) -> Option<u32> {
    if t < db.tys@.len() {
        match db.tys@[t as int] {
            TyKind::Ref { pointee, .. } => Some(pointee),
            TyKind::Raw { pointee, .. } => Some(pointee),
            TyKind::Adt { adt, .. } => deref_target_from(db.deref_impls@, adt, 0),
            _ => None,
        }
    } else {
        None
    }
}

/// `t`, then what it dereferences to, at most `n` more times.
pub open spec fn autoderef_chain(db: &HirDatabase, t: u32, n: nat) -> Seq<u32>
    decreases n,
{
    if n == 0 {
        seq![t]
    } else {
        match deref_step(db, t) {
            Some(u) => seq![t] + autoderef_chain(db, u, (n - 1) as nat),
            None => seq![t],
        }
    }
}

pub fn deref_once(db: &HirDatabase, t: u32) -> (r: Option<u32>)
    ensures
        r == deref_step(db, t),
{
    if (t as usize) >= db.tys.len() {
        return None;
    }
    match &db.tys[t as usize] {
        TyKind::Ref { pointee, .. } => Some(*pointee),
        TyKind::Raw { pointee, .. } => Some(*pointee),
        TyKind::Adt { adt, .. } => {
            let mut i: usize = 0;
            while i < db.deref_impls.len()
                invariant
                    i <= db.deref_impls@.len(),
                    t < db.tys@.len(),
                    db.tys@[t as int] matches TyKind::Adt { adt: a, .. } && a == *adt,
                    deref_target_from(db.deref_impls@, *adt, i as int) == deref_target_from(db.deref_impls@, *adt, 0),
                decreases db.deref_impls@.len() - i,
            {
                if db.deref_impls[i].adt == *adt {
                    return Some(db.deref_impls[i].target);
                }
                i = i + 1;
            }
            None
        },
        _ => None,
    }
}

pub proof fn lemma_chain_len(db: &HirDatabase, t: u32, n: nat)
    ensures
        1 <= autoderef_chain(db, t, n).len() <= n + 1,
        autoderef_chain(db, t, n)[0] == t,
    decreases n,
{
    if n > 0 {
        if let Some(u) = deref_step(db, t) {
            lemma_chain_len(db, u, (n - 1) as nat);
        }
    }
}

/// Autoderef ends within its bound for every start type, cyclic custom
/// dereferences included: at most one type more than the step limit.
pub proof fn lemma_autoderef_bounded(db: &HirDatabase, t: u32)
    ensures
        autoderef_chain(db, t, AUTODEREF_LIMIT as nat).len() <= AUTODEREF_LIMIT + 1,
        autoderef_chain(db, t, AUTODEREF_LIMIT as nat)[0] == t,
{
    lemma_chain_len(db, t, AUTODEREF_LIMIT as nat);
}


/// Whether `t` holds an unknown type anywhere, or an array of unknown length.
pub open spec fn contains_unknown_spec(db: &HirDatabase, t: int) -> bool
    decreases t, 1int, 0int,
{
    if 0 <= t < db.tys@.len() {
        match db.tys@[t] {
            TyKind::Error => true,
            TyKind::Adt { args, .. } => any_unknown(db, args@, args@.len() as int, t),
            TyKind::AssociatedType { args, .. } => any_unknown(db, args@, args@.len() as int, t),
            TyKind::Tuple { args } => any_unknown(db, args@, args@.len() as int, t),
            TyKind::OpaqueType { args, .. } => any_unknown(db, args@, args@.len() as int, t),
            TyKind::FnDef { args, .. } => any_unknown(db, args@, args@.len() as int, t),
            TyKind::Closure { args } => any_unknown(db, args@, args@.len() as int, t),
            TyKind::Array { elem, len_known } => !len_known || (elem < t && contains_unknown_spec(db, elem as int)),
            TyKind::Slice { elem } => elem < t && contains_unknown_spec(db, elem as int),
            TyKind::Raw { pointee, .. } => pointee < t && contains_unknown_spec(db, pointee as int),
            TyKind::Ref { pointee, .. } => pointee < t && contains_unknown_spec(db, pointee as int),
            _ => false,
        }
    } else {
        false
    }
}

/// One of `args[..k]` that refers to an earlier node than `bound` contains an unknown type.
pub open spec fn any_unknown(db: &HirDatabase, args: Seq<u32>, k: int, bound: int) -> bool
    decreases bound, 0int, k,
{
    if 0 < k <= args.len() {
        any_unknown(db, args, k - 1, bound) || (args[k - 1] < bound && contains_unknown_spec(
            db,
            args[k - 1] as int,
        ))
    } else {
        false
    }
}

fn args_contain_unknown(db: &HirDatabase, args: &Vec<u32>, bound: u32) -> (r: bool)
    ensures
        r == any_unknown(db, args@, args@.len() as int, bound as int),
    decreases bound, 0int,
{
    let mut i: usize = 0;
    let mut found = false;
    while i < args.len()
        invariant
            i <= args@.len(),
            found == any_unknown(db, args@, i as int, bound as int),
        decreases args@.len() - i,
    {
        if !found && args[i] < bound {
            found = ty_contains_unknown(db, args[i]);
        }
        i = i + 1;
    }
    found
}

fn ty_contains_unknown(db: &HirDatabase, t: u32) -> (r: bool)
    ensures
        r == contains_unknown_spec(db, t as int),
    decreases t, 1int,
{
    if (t as usize) >= db.tys.len() {
        return false;
    }
    match &db.tys[t as usize] {
        TyKind::Error => true,
        TyKind::Adt { args, .. } => args_contain_unknown(db, args, t),
        TyKind::AssociatedType { args, .. } => args_contain_unknown(db, args, t),
        TyKind::Tuple { args } => args_contain_unknown(db, args, t),
        TyKind::OpaqueType { args, .. } => args_contain_unknown(db, args, t),
        TyKind::FnDef { args, .. } => args_contain_unknown(db, args, t),
        TyKind::Closure { args } => args_contain_unknown(db, args, t),
        TyKind::Array { elem, len_known } => !*len_known || (*elem < t && ty_contains_unknown(db, *elem)),
        TyKind::Slice { elem } => *elem < t && ty_contains_unknown(db, *elem),
        TyKind::Raw { pointee, .. } => *pointee < t && ty_contains_unknown(db, *pointee),
        TyKind::Ref { pointee, .. } => *pointee < t && ty_contains_unknown(db, *pointee),
        _ => false,
    }
}

/// The pointee of `t` when it is a reference.
pub open spec fn ref_pointee(db: &HirDatabase, t: u32) -> Option<(u32, Mutability)> {
    if t < db.tys@.len() {
        match db.tys@[t as int] {
            TyKind::Ref { pointee, mutability } => Some((pointee, mutability)),
            _ => None,
        }
    } else {
        None
    }
}

/// `t` with every outer reference removed.
pub open spec fn strip_refs_spec(db: &HirDatabase, t: u32) -> u32
    decreases t,
{
    match ref_pointee(db, t) {
        Some((p, _)) => if p < t {
            strip_refs_spec(db, p)
        } else {
            t
        },
        None => t,
    }
}

impl Type {
    /// This type with `ty` replaced, in the same environment.
    pub fn derived(&self, ty: u32) -> (r: Type)
        ensures
            r == (Type { ty, env: self.env }),
    {
        Type { ty, env: self.env }
    }

    pub fn contains_unknown(&self, db: &HirDatabase) -> (r: bool)
        ensures
            r == contains_unknown_spec(db, self.ty as int),
    {
        ty_contains_unknown(db, self.ty)
    }

    /// The types met by dereferencing repeatedly, starting with this one and
    /// stopping when no step applies or after [`AUTODEREF_LIMIT`] steps.
    pub fn autoderef(&self, db: &HirDatabase) -> (r: Vec<Type>)
        ensures
            r@.len() == autoderef_chain(db, self.ty, AUTODEREF_LIMIT as nat).len(),
            forall|i: int| 0 <= i < r@.len() ==> #[trigger] r@[i] == (Type {
                ty: autoderef_chain(db, self.ty, AUTODEREF_LIMIT as nat)[i],
                env: self.env,
            }),
            r@.len() <= AUTODEREF_LIMIT + 1,
    {
        let mut r: Vec<Type> = Vec::new();
        let mut cur = self.ty;
        let mut steps: usize = 0;
        r.push(Type { ty: cur, env: self.env });
        let ghost full = autoderef_chain(db, self.ty, AUTODEREF_LIMIT as nat);
        proof {
            lemma_chain_len(db, self.ty, AUTODEREF_LIMIT as nat);
        }
        loop
            invariant
                steps <= AUTODEREF_LIMIT,
                r@.len() == steps + 1,
                full == autoderef_chain(db, self.ty, AUTODEREF_LIMIT as nat),
                full.len() <= AUTODEREF_LIMIT + 1,
                full == r@.map_values(|x: Type| x.ty).take(steps as int) + autoderef_chain(db, cur, (AUTODEREF_LIMIT - steps) as nat),
                r@[steps as int].ty == cur,
                forall|i: int| 0 <= i < r@.len() ==> #[trigger] r@[i].env == self.env,
            ensures
                full =~= r@.map_values(|x: Type| x.ty),
                forall|i: int| 0 <= i < r@.len() ==> #[trigger] r@[i].env == self.env,
            decreases AUTODEREF_LIMIT - steps,
        {
            if steps >= AUTODEREF_LIMIT {
                assert(autoderef_chain(db, cur, (AUTODEREF_LIMIT - steps) as nat) == seq![cur]);
                assert(full =~= r@.map_values(|x: Type| x.ty));
                break;
            }
            match deref_once(db, cur) {
                Some(next) => {
                    let ghost r0 = r@;
                    proof {
                        assert(autoderef_chain(db, cur, (AUTODEREF_LIMIT - steps) as nat) == seq![cur] + autoderef_chain(db, next, (AUTODEREF_LIMIT - steps - 1) as nat));
                    }
                    r.push(Type { ty: next, env: self.env });
                    assert(r@.map_values(|x: Type| x.ty).take(steps + 1) =~= r0.map_values(|x: Type| x.ty).take(steps as int) + seq![cur]);
                    cur = next;
                    steps = steps + 1;
                },
                None => {
                    assert(autoderef_chain(db, cur, (AUTODEREF_LIMIT - steps) as nat) == seq![cur]);
                    assert(full =~= r@.map_values(|x: Type| x.ty));
                    break;
                },
            }
        }
        assert forall|i: int| 0 <= i < r@.len() implies #[trigger] r@[i] == (Type { ty: full[i], env: self.env }) by {
            assert(full =~= r@.map_values(|x: Type| x.ty));
            assert(r@.map_values(|x: Type| x.ty)[i] == r@[i].ty);
            assert(r@[i].ty == full[i]);
            assert(r@[i].env == self.env);
        }
        r
    }
}


/// The first recorded answer for the goal `self_ty: trait_<args>` among
/// `sols[i..]`; a goal with no record has no solution.
pub open spec fn solve_from(sols: Seq<TraitSolution>, trait_: Trait, self_ty: u32, args: Seq<u32>, i: int) -> SolverOutcome
    decreases sols.len() - i,
{
    if i < 0 || i >= sols.len() {
        SolverOutcome::NoSolution
    } else if sols[i].trait_ == trait_ && sols[i].self_ty == self_ty && sols[i].args@ == args {
        sols[i].outcome
    } else {
        solve_from(sols, trait_, self_ty, args, i + 1)
    }
}

pub open spec fn solve(db: &HirDatabase, trait_: Trait, self_ty: u32, args: Seq<u32>) -> SolverOutcome {
    solve_from(db.solutions@, trait_, self_ty, args, 0)
}

fn same_ids(a: &Vec<u32>, b: &Vec<u32>) -> (r: bool)
    ensures
        r == (a@ == b@),
{
    if a.len() != b.len() {
        return false;
    }
    let mut i: usize = 0;
    while i < a.len()
        invariant
            i <= a@.len() == b@.len(),
            forall|j: int| 0 <= j < i ==> a@[j] == b@[j],
        decreases a@.len() - i,
    {
        if a[i] != b[i] {
            return false;
        }
        i = i + 1;
    }
    assert(a@ =~= b@);
    true
}

fn trait_solve(db: &HirDatabase, trait_: Trait, self_ty: u32, args: &Vec<u32>) -> (r: SolverOutcome)
    ensures
        r == solve(db, trait_, self_ty, args@),
{
    let mut i: usize = 0;
    while i < db.solutions.len()
        invariant
            i <= db.solutions@.len(),
            solve_from(db.solutions@, trait_, self_ty, args@, i as int) == solve(db, trait_, self_ty, args@),
        decreases db.solutions@.len() - i,
    {
        let s = &db.solutions[i];
        if s.trait_ == trait_ && s.self_ty == self_ty && same_ids(&s.args, args) {
            return s.outcome;
        }
        i = i + 1;
    }
    SolverOutcome::NoSolution
}

/// The trait that crate `krate` registers for `item`, the first one recorded.
pub open spec fn lang_trait_from(ls: Seq<LangTrait>, krate: u32, item: LangItem, i: int) -> Option<Trait>
    decreases ls.len() - i,
{
    if i < 0 || i >= ls.len() {
        None
    } else if ls[i].krate == krate && ls[i].item == item {
        Some(ls[i].trait_)
    } else {
        lang_trait_from(ls, krate, item, i + 1)
    }
}

pub open spec fn env_crate(db: &HirDatabase, env: u32) -> Option<u32> {
    if env < db.envs@.len() {
        Some(db.envs@[env as int].krate)
    } else {
        None
    }
}

/// The language trait `item` as the crate of environment `env` sees it.
pub open spec fn lang_trait(db: &HirDatabase, env: u32, item: LangItem) -> Option<Trait> {
    match env_crate(db, env) {
        Some(k) => lang_trait_from(db.lang_traits@, k, item, 0),
        None => None,
    }
}

fn lang_trait_of(db: &HirDatabase, env: u32, item: LangItem) -> (r: Option<Trait>)
    ensures
        r == lang_trait(db, env, item),
{
    if (env as usize) >= db.envs.len() {
        return None;
    }
    let k = db.envs[env as usize].krate;
    let mut i: usize = 0;
    while i < db.lang_traits.len()
        invariant
            i <= db.lang_traits@.len(),
            env < db.envs@.len(),
            k == db.envs@[env as int].krate,
            lang_trait_from(db.lang_traits@, k, item, i as int) == lang_trait(db, env, item),
        decreases db.lang_traits@.len() - i,
    {
        if db.lang_traits[i].krate == k && db.lang_traits[i].item == item {
            return Some(db.lang_traits[i].trait_);
        }
        i = i + 1;
    }
    None
}

/// The type implements the lang trait `item` (with no further arguments)
/// by a definite answer of the solver.
pub open spec fn implements_lang(db: &HirDatabase, t: Type, item: LangItem) -> bool {
    match lang_trait(db, t.env, item) {
        Some(tr) => solve(db, tr, t.ty, seq![t.ty]) == SolverOutcome::Unique,
        None => false,
    }
}

pub open spec fn ty_kind_is(db: &HirDatabase, t: u32, p: spec_fn(TyKind) -> bool) -> bool {
    t < db.tys@.len() && p(db.tys@[t as int])
}

impl Type {
    /// Whether the solver definitely proves `Self: trait_<args>`; an
    /// ambiguous answer counts as no.
    pub fn impls_trait(&self, db: &HirDatabase, trait_: Trait, args: &Vec<u32>) -> (r: bool)
        ensures
            r == (solve(db, trait_, self.ty, seq![self.ty] + args@) == SolverOutcome::Unique),
    {
        let mut goal: Vec<u32> = Vec::new();
        goal.push(self.ty);
        let mut i: usize = 0;
        while i < args.len()
            invariant
                i <= args@.len(),
                goal@ == seq![self.ty] + args@.take(i as int),
            decreases args@.len() - i,
        {
            goal.push(args[i]);
            i = i + 1;
            assert(goal@ =~= seq![self.ty] + args@.take(i as int));
        }
        assert(args@.take(i as int) =~= args@);
        trait_solve(db, trait_, self.ty, &goal) == SolverOutcome::Unique
    }

    fn implements_lang_trait(&self, db: &HirDatabase, item: LangItem) -> (r: bool)
        ensures
            r == implements_lang(db, *self, item),
    {
        match lang_trait_of(db, self.env, item) {
            Some(tr) => {
                let mut goal: Vec<u32> = Vec::new();
                goal.push(self.ty);
                assert(goal@ =~= seq![self.ty]);
                trait_solve(db, tr, self.ty, &goal) == SolverOutcome::Unique
            },
            None => false,
        }
    }

    /// Values of the type are copied rather than moved.
    pub fn is_copy(&self, db: &HirDatabase) -> (r: bool)
        ensures
            r == implements_lang(db, *self, LangItem::Copy),
    {
        self.implements_lang_trait(db, LangItem::Copy)
    }

    /// Values of the type can be called at least once.
    pub fn impls_fnonce(&self, db: &HirDatabase) -> (r: bool)
        ensures
            r == implements_lang(db, *self, LangItem::FnOnce),
    {
        self.implements_lang_trait(db, LangItem::FnOnce)
    }

    /// The type can be awaited: it implements `IntoFuture`, or `Future` itself.
    pub fn impls_into_future(&self, db: &HirDatabase) -> (r: bool)
        ensures
            r == (implements_lang(db, *self, LangItem::IntoFuture) || implements_lang(db, *self, LangItem::Future)),
    {
        self.implements_lang_trait(db, LangItem::IntoFuture) || self.implements_lang_trait(db, LangItem::Future)
    }

    fn kind_is<'a>(&self, db: &'a HirDatabase) -> (r: Option<&'a TyKind>)
        ensures
            match r {
                Some(k) => self.ty < db.tys@.len() && *k == db.tys@[self.ty as int],
                None => self.ty >= db.tys@.len(),
            },
    {
        if (self.ty as usize) < db.tys.len() {
            Some(&db.tys[self.ty as usize])
        } else {
            None
        }
    }

    /// The empty tuple.
    pub fn is_unit(&self, db: &HirDatabase) -> (r: bool)
        ensures
            r == ty_kind_is(db, self.ty, |k: TyKind| k matches TyKind::Tuple { args } && args@.len() == 0),
    {
        match self.kind_is(db) {
            Some(TyKind::Tuple { args }) => args.len() == 0,
            _ => false,
        }
    }

    pub fn is_bool(&self, db: &HirDatabase) -> (r: bool)
        ensures
            r == ty_kind_is(db, self.ty, |k: TyKind| k == TyKind::Scalar { scalar: Scalar::Bool }),
    {
        match self.kind_is(db) {
            Some(TyKind::Scalar { scalar: Scalar::Bool }) => true,
            _ => false,
        }
    }

    pub fn is_usize(&self, db: &HirDatabase) -> (r: bool)
        ensures
            r == ty_kind_is(db, self.ty, |k: TyKind| k == TyKind::Scalar { scalar: Scalar::Usize }),
    {
        match self.kind_is(db) {
            Some(TyKind::Scalar { scalar: Scalar::Usize }) => true,
            _ => false,
        }
    }

    pub fn is_never(&self, db: &HirDatabase) -> (r: bool)
        ensures
            r == ty_kind_is(db, self.ty, |k: TyKind| k is Never),
    {
        match self.kind_is(db) {
            Some(TyKind::Never) => true,
            _ => false,
        }
    }

    /// The unknown type that inference could not resolve.
    pub fn is_unknown(&self, db: &HirDatabase) -> (r: bool)
        ensures
            r == ty_kind_is(db, self.ty, |k: TyKind| k is Error),
    {
        match self.kind_is(db) {
            Some(TyKind::Error) => true,
            _ => false,
        }
    }

    pub fn is_reference(&self, db: &HirDatabase) -> (r: bool)
        ensures
            r == ty_kind_is(db, self.ty, |k: TyKind| k is Ref),
    {
        match self.kind_is(db) {
            Some(TyKind::Ref { .. }) => true,
            _ => false,
        }
    }

    pub fn is_mutable_reference(&self, db: &HirDatabase) -> (r: bool)
        ensures
            r == ty_kind_is(db, self.ty, |k: TyKind| k matches TyKind::Ref { mutability: Mutability::Mut, .. }),
    {
        match self.kind_is(db) {
            Some(TyKind::Ref { mutability: Mutability::Mut, .. }) => true,
            _ => false,
        }
    }

    pub fn is_raw_ptr(&self, db: &HirDatabase) -> (r: bool)
        ensures
            r == ty_kind_is(db, self.ty, |k: TyKind| k is Raw),
    {
        match self.kind_is(db) {
            Some(TyKind::Raw { .. }) => true,
            _ => false,
        }
    }

    pub fn is_slice(&self, db: &HirDatabase) -> (r: bool)
        ensures
            r == ty_kind_is(db, self.ty, |k: TyKind| k is Slice),
    {
        match self.kind_is(db) {
            Some(TyKind::Slice { .. }) => true,
            _ => false,
        }
    }

    pub fn is_array(&self, db: &HirDatabase) -> (r: bool)
        ensures
            r == ty_kind_is(db, self.ty, |k: TyKind| k is Array),
    {
        match self.kind_is(db) {
            Some(TyKind::Array { .. }) => true,
            _ => false,
        }
    }

    pub fn is_closure(&self, db: &HirDatabase) -> (r: bool)
        ensures
            r == ty_kind_is(db, self.ty, |k: TyKind| k is Closure),
    {
        match self.kind_is(db) {
            Some(TyKind::Closure { .. }) => true,
            _ => false,
        }
    }

    /// A function item or a function pointer.
    pub fn is_fn(&self, db: &HirDatabase) -> (r: bool)
        ensures
            r == ty_kind_is(db, self.ty, |k: TyKind| k is FnDef || k is FnPtr),
    {
        match self.kind_is(db) {
            Some(TyKind::FnDef { .. }) => true,
            Some(TyKind::FnPtr { .. }) => true,
            _ => false,
        }
    }

    /// The pointee and mutability of a reference, in this environment.
    pub fn as_reference(&self, db: &HirDatabase) -> (r: Option<(Type, Mutability)>)
        ensures
            r == match ref_pointee(db, self.ty) {
                Some((p, m)) => Some((Type { ty: p, env: self.env }, m)),
                None => None,
            },
    {
        match self.kind_is(db) {
            Some(TyKind::Ref { mutability, pointee }) => Some((Type { ty: *pointee, env: self.env }, *mutability)),
            _ => None,
        }
    }

    /// The pointee when this is a reference.
    pub fn remove_ref(&self, db: &HirDatabase) -> (r: Option<Type>)
        ensures
            r == match ref_pointee(db, self.ty) {
                Some((p, _)) => Some(Type { ty: p, env: self.env }),
                None => None,
            },
    {
        match self.as_reference(db) {
            Some((t, _)) => Some(t),
            None => None,
        }
    }

    /// This type with one reference removed, or itself.
    pub fn strip_reference(&self, db: &HirDatabase) -> (r: Type)
        ensures
            r == match ref_pointee(db, self.ty) {
                Some((p, _)) => Type { ty: p, env: self.env },
                None => *self,
            },
    {
        match self.remove_ref(db) {
            Some(t) => t,
            None => *self,
        }
    }

    /// This type with every outer reference removed.
    pub fn strip_references(&self, db: &HirDatabase) -> (r: Type)
        ensures
            r == (Type { ty: strip_refs_spec(db, self.ty), env: self.env }),
    {
        let mut cur = self.ty;
        loop
            invariant
                strip_refs_spec(db, cur) == strip_refs_spec(db, self.ty),
            ensures
                strip_refs_spec(db, cur) == cur,
                strip_refs_spec(db, cur) == strip_refs_spec(db, self.ty),
            decreases cur,
        {
            match self.derived(cur).as_reference(db) {
                Some((p, _)) => {
                    if p.ty < cur {
                        cur = p.ty;
                    } else {
                        break;
                    }
                },
                None => break,
            }
        }
        Type { ty: cur, env: self.env }
    }

    /// The ADT this type is an instance of.
    pub fn as_adt(&self, db: &HirDatabase) -> (r: Option<Adt>)
        ensures
            r == crate::resolve::ty_adt(db, self.ty),
    {
        crate::resolve::as_adt_of(db, self.ty)
    }

    /// The principal trait of a trait object.
    pub fn as_dyn_trait(&self, db: &HirDatabase) -> (r: Option<Trait>)
        ensures
            r == match (if self.ty < db.tys@.len() { Some(db.tys@[self.ty as int]) } else { None }) {
                Some(TyKind::Dyn { bounds }) => if bounds@.len() > 0 { Some(bounds@[0].trait_) } else { None },
                _ => None,
            },
    {
        match self.kind_is(db) {
            Some(TyKind::Dyn { bounds }) => if bounds.len() > 0 { Some(bounds[0].trait_) } else { None },
            _ => None,
        }
    }

    /// The generic arguments of the ADT behind any references, in this environment.
    pub fn type_arguments(&self, db: &HirDatabase) -> (r: Vec<Type>)
        ensures
            r@ == match (if strip_refs_spec(db, self.ty) < db.tys@.len() { Some(db.tys@[strip_refs_spec(db, self.ty) as int]) } else { None }) {
                Some(TyKind::Adt { args, .. }) => args@.map_values(|a: u32| Type { ty: a, env: self.env }),
                _ => Seq::empty(),
            },
    {
        let s = self.strip_references(db);
        match s.kind_is(db) {
            Some(TyKind::Adt { args, .. }) => self.derive_all(args),
            _ => Vec::new(),
        }
    }

    /// The element types of a tuple, in this environment.
    pub fn tuple_fields(&self, db: &HirDatabase) -> (r: Vec<Type>)
        ensures
            r@ == match (if self.ty < db.tys@.len() { Some(db.tys@[self.ty as int]) } else { None }) {
                Some(TyKind::Tuple { args }) => args@.map_values(|a: u32| Type { ty: a, env: self.env }),
                _ => Seq::empty(),
            },
    {
        match self.kind_is(db) {
            Some(TyKind::Tuple { args }) => self.derive_all(args),
            _ => Vec::new(),
        }
    }

    fn derive_all(&self, args: &Vec<u32>) -> (r: Vec<Type>)
        ensures
            r@ == args@.map_values(|a: u32| Type { ty: a, env: self.env }),
    {
        let mut r: Vec<Type> = Vec::new();
        let mut i: usize = 0;
        while i < args.len()
            invariant
                i <= args@.len(),
                r@ == args@.take(i as int).map_values(|a: u32| Type { ty: a, env: self.env }),
            decreases args@.len() - i,
        {
            r.push(self.derived(args[i]));
            i = i + 1;
            assert(r@ =~= args@.take(i as int).map_values(|a: u32| Type { ty: a, env: self.env }));
        }
        assert(args@.take(i as int) =~= args@);
        r
    }

    /// A struct declared `#[repr(packed)]`.
    pub fn is_packed(&self, db: &HirDatabase) -> (r: bool)
        ensures
            r == match crate::resolve::ty_adt(db, self.ty) {
                Some(Adt::Struct(s)) => s.id < db.structs@.len() && db.structs@[s.id as int].is_packed,
                _ => false,
            },
    {
        match self.as_adt(db) {
            Some(Adt::Struct(s)) => (s.id as usize) < db.structs.len() && db.structs[s.id as usize].is_packed,
            _ => false,
        }
    }
}


/// The first recorded normalization of `<self_ty as _<args>>::alias` among `ns[i..]`.
pub open spec fn normalize_from(ns: Seq<Normalization>, alias: TypeAlias, self_ty: u32, args: Seq<u32>, i: int) -> Option<u32>
    decreases ns.len() - i,
{
    if i < 0 || i >= ns.len() {
        None
    } else if ns[i].alias == alias && ns[i].self_ty == self_ty && ns[i].args@ == args {
        Some(ns[i].result)
    } else {
        normalize_from(ns, alias, self_ty, args, i + 1)
    }
}

impl Type {
    /// What the associated type `alias` of this type's trait impl normalizes
    /// to, in this environment; none when the projection does not normalize
    /// or normalizes to the unknown type.
    pub fn normalize_trait_assoc_type(&self, db: &HirDatabase, args: &Vec<u32>, alias: TypeAlias) -> (r: Option<Type>)
        ensures
            r == match normalize_from(db.normalizations@, alias, self.ty, args@, 0) {
                Some(t) => if ty_kind_is(db, t, |k: TyKind| k is Error) { None } else { Some(Type { ty: t, env: self.env }) },
                None => None,
            },
    {
        let mut i: usize = 0;
        while i < db.normalizations.len()
            invariant
                i <= db.normalizations@.len(),
                normalize_from(db.normalizations@, alias, self.ty, args@, i as int) == normalize_from(db.normalizations@, alias, self.ty, args@, 0),
            decreases db.normalizations@.len() - i,
        {
            let n = &db.normalizations[i];
            if n.alias == alias && n.self_ty == self.ty && same_ids(&n.args, args) {
                let t = self.derived(n.result);
                if t.is_unknown(db) {
                    return None;
                }
                return Some(t);
            }
            i = i + 1;
        }
        None
    }
}


impl BuiltinType {
    pub fn str() -> (r: BuiltinType)
        ensures
            r.inner == BuiltinKind::Str,
    {
        BuiltinType { inner: BuiltinKind::Str }
    }

    /// A signed integer type.
    pub fn is_int(&self) -> (r: bool)
        ensures
            r == (self.inner == BuiltinKind::Scalar(Scalar::Int)),
    {
        self.inner == BuiltinKind::Scalar(Scalar::Int)
    }

    /// An unsigned integer type, `usize` included.
    pub fn is_uint(&self) -> (r: bool)
        ensures
            r == (self.inner == BuiltinKind::Scalar(Scalar::Uint) || self.inner == BuiltinKind::Scalar(Scalar::Usize)),
    {
        self.inner == BuiltinKind::Scalar(Scalar::Uint) || self.inner == BuiltinKind::Scalar(Scalar::Usize)
    }

    pub fn is_float(&self) -> (r: bool)
        ensures
            r == (self.inner == BuiltinKind::Scalar(Scalar::Float)),
    {
        self.inner == BuiltinKind::Scalar(Scalar::Float)
    }

    pub fn is_char(&self) -> (r: bool)
        ensures
            r == (self.inner == BuiltinKind::Scalar(Scalar::Char)),
    {
        self.inner == BuiltinKind::Scalar(Scalar::Char)
    }

    pub fn is_bool(&self) -> (r: bool)
        ensures
            r == (self.inner == BuiltinKind::Scalar(Scalar::Bool)),
    {
        self.inner == BuiltinKind::Scalar(Scalar::Bool)
    }

    pub fn is_str(&self) -> (r: bool)
        ensures
            r == (self.inner == BuiltinKind::Str),
    {
        self.inner == BuiltinKind::Str
    }
}

impl Type {
    /// For an `impl Trait` type, the traits of its bounds, in order.
    pub fn as_impl_traits(&self, db: &HirDatabase) -> (r: Option<Vec<Trait>>)
        ensures
            match (if self.ty < db.tys@.len() { Some(db.tys@[self.ty as int]) } else { None }) {
                Some(TyKind::OpaqueType { bounds, .. }) => r matches Some(ts) && ts@ == bounds@.map_values(|b: TraitBound| b.trait_),
                _ => r is None,
            },
    {
        match self.kind_is(db) {
            Some(TyKind::OpaqueType { bounds, .. }) => {
                let mut ts: Vec<Trait> = Vec::new();
                let mut i: usize = 0;
                while i < bounds.len()
                    invariant
                        i <= bounds@.len(),
                        ts@ == bounds@.take(i as int).map_values(|b: TraitBound| b.trait_),
                    decreases bounds@.len() - i,
                {
                    ts.push(bounds[i].trait_);
                    i = i + 1;
                    assert(ts@ =~= bounds@.take(i as int).map_values(|b: TraitBound| b.trait_));
                }
                assert(bounds@.take(i as int) =~= bounds@);
                Some(ts)
            },
            _ => None,
        }
    }

    /// The built-in type this is, if it is one.
    pub fn as_builtin(&self, db: &HirDatabase) -> (r: Option<BuiltinType>)
        ensures
            r == match (if self.ty < db.tys@.len() { Some(db.tys@[self.ty as int]) } else { None }) {
                Some(TyKind::Scalar { scalar }) => Some(BuiltinType { inner: BuiltinKind::Scalar(scalar) }),
                Some(TyKind::Str) => Some(BuiltinType { inner: BuiltinKind::Str }),
                _ => None,
            },
    {
        match self.kind_is(db) {
            Some(TyKind::Scalar { scalar }) => Some(BuiltinType { inner: BuiltinKind::Scalar(*scalar) }),
            Some(TyKind::Str) => Some(BuiltinType::str()),
            _ => None,
        }
    }
}

} // verus!
