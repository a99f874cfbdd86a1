//! Impl lookup and method / path candidate search for a type.
use vstd::prelude::*;
use crate::db::{HirDatabase, Name, TyKind};
use crate::entity::{Adt, AssocItem, Function, Impl, Trait};
use crate::graph::{reach_flags, reaches};
use crate::ty::Type;

verus! {

/// The ADT that type node `t` is an instance of.
pub open spec fn ty_adt(db: &HirDatabase, t: u32) -> Option<Adt> {
    if t < db.tys@.len() {
        match db.tys@[t as int] {
            TyKind::Adt { adt, .. } => Some(adt),
            _ => None,
        }
    } else {
        None
    }
}

pub fn as_adt_of(db: &HirDatabase, t: u32) -> (r: Option<Adt>)
    ensures
        r == ty_adt(db, t),
{
    if (t as usize) < db.tys.len() {
        match &db.tys[t as usize] {
            TyKind::Adt { adt, .. } => Some(*adt),
            _ => None,
        }
    } else {
        None
    }
}

/// The module an ADT is declared in.
pub open spec fn adt_module(db: &HirDatabase, adt: Adt) -> Option<u32> {
    match adt {
        Adt::Struct(s) => if s.id < db.structs@.len() { Some(db.structs@[s.id as int].module) } else { None },
        Adt::Union(u) => if u.id < db.unions@.len() { Some(db.unions@[u.id as int].module) } else { None },
        Adt::Enum(e) => if e.id < db.enums@.len() { Some(db.enums@[e.id as int].module) } else { None },
    }
}

pub fn adt_module_of(db: &HirDatabase, adt: Adt) -> (r: Option<u32>)
    ensures
        r == adt_module(db, adt),
{
    match adt {
        Adt::Struct(s) => if (s.id as usize) < db.structs.len() { Some(db.structs[s.id as usize].module) } else { None },
        Adt::Union(u) => if (u.id as usize) < db.unions.len() { Some(db.unions[u.id as usize].module) } else { None },
        Adt::Enum(e) => if (e.id as usize) < db.enums.len() { Some(db.enums[e.id as usize].module) } else { None },
    }
}

pub open spec fn module_crate(db: &HirDatabase, m: u32) -> Option<u32> {
    if m < db.modules@.len() {
        Some(db.modules@[m as int].krate)
    } else {
        None
    }
}

/// The crate that defines the constructor of `t`; only ADTs have one here.
pub open spec fn def_crate(db: &HirDatabase, t: u32) -> Option<u32> {
    match ty_adt(db, t) {
        Some(adt) => match adt_module(db, adt) {
            Some(m) => module_crate(db, m),
            None => None,
        },
        None => None,
    }
}

pub fn def_crate_of(db: &HirDatabase, t: u32) -> (r: Option<u32>)
    ensures
        r == def_crate(db, t),
{
    match as_adt_of(db, t) {
        Some(adt) => match adt_module_of(db, adt) {
            Some(m) => if (m as usize) < db.modules.len() { Some(db.modules[m as usize].krate) } else { None },
            None => None,
        },
        None => None,
    }
}

/// `t` with one outer reference removed.
pub open spec fn remove_ref(db: &HirDatabase, t: u32) -> u32 {
    if t < db.tys@.len() {
        match db.tys@[t as int] {
            TyKind::Ref { pointee, .. } => pointee,
            _ => t,
        }
    } else {
        t
    }
}

/// Impl `i` is in crate `c`, is inherent (or a trait impl, as `inherent`
/// says) and its Self type, a reference removed, has the constructor of `t`.
pub open spec fn impl_matches(db: &HirDatabase, i: int, t: u32, c: u32, inherent: bool) -> bool {
    &&& 0 <= i < db.impls@.len()
    &&& (db.impls@[i].trait_ is None) == inherent
    &&& module_crate(db, db.impls@[i].module) == Some(c)
    &&& ty_adt(db, t) is Some
    &&& ty_adt(db, remove_ref(db, db.impls@[i].self_ty)) == ty_adt(db, t)
}

/// The impls among the first `k` that match, by increasing id.
pub open spec fn impls_in_crate(db: &HirDatabase, t: u32, c: u32, inherent: bool, k: int) -> Seq<Impl>
    decreases k,
{
    if k <= 0 {
        Seq::empty()
    } else {
        impls_in_crate(db, t, c, inherent, k - 1) + if impl_matches(db, k - 1, t, c, inherent) {
            seq![Impl { id: (k - 1) as u32 }]
        } else {
            Seq::empty()
        }
    }
}

/// The matching trait impls of the first `c` crates that reach `def`, crate by crate.
pub open spec fn trait_impls_upto(db: &HirDatabase, t: u32, def: u32, c: int) -> Seq<Impl>
    decreases c,
{
    if c <= 0 {
        Seq::empty()
    } else {
        trait_impls_upto(db, t, def, c - 1) + if reaches(db, c - 1, def as int) {
            impls_in_crate(db, t, (c - 1) as u32, false, db.impls@.len() as int)
        } else {
            Seq::empty()
        }
    }
}

/// Inherent impls of the defining crate first, then trait impls of the
/// defining crate and of every crate that depends on it.
pub open spec fn all_for_type_spec(db: &HirDatabase, t: u32) -> Seq<Impl> {
    match def_crate(db, t) {
        Some(def) => impls_in_crate(db, t, def, true, db.impls@.len() as int) + trait_impls_upto(
            db,
            t,
            def,
            db.crates@.len() as int,
        ),
        None => Seq::empty(),
    }
}

fn collect_impls_in_crate(db: &HirDatabase, t: u32, c: u32, inherent: bool, out: &mut Vec<Impl>)
    requires
        db.impls@.len() <= u32::MAX,
    ensures
        final(out)@ == old(out)@ + impls_in_crate(db, t, c, inherent, db.impls@.len() as int),
{
    let ghost out0 = out@;
    let target = as_adt_of(db, t);
    let mut i: usize = 0;
    while i < db.impls.len()
        invariant
            i <= db.impls@.len() <= u32::MAX,
            target == ty_adt(db, t),
            out@ == out0 + impls_in_crate(db, t, c, inherent, i as int),
        decreases db.impls@.len() - i,
    {
        let data = &db.impls[i];
        let same_kind = data.trait_.is_none() == inherent;
        let in_crate = (data.module as usize) < db.modules.len() && db.modules[data.module as usize].krate == c;
        let self_ty = data.self_ty;
        let stripped = if (self_ty as usize) < db.tys.len() {
            match &db.tys[self_ty as usize] {
                TyKind::Ref { pointee, .. } => *pointee,
                _ => self_ty,
            }
        } else {
            self_ty
        };
        let ctor_matches = match target {
            Some(a) => match as_adt_of(db, stripped) {
                Some(b) => a == b,
                None => false,
            },
            None => false,
        };
        if same_kind && in_crate && ctor_matches {
            out.push(Impl { id: i as u32 });
        }
        i = i + 1;
        assert(out@ =~= out0 + impls_in_crate(db, t, c, inherent, i as int));
    }
}

impl Impl {
    /// The impls whose Self type has the constructor of `ty`, in search order:
    /// the inherent impls of the type's defining crate, then the trait impls of
    /// that crate and of all crates depending on it, by crate.
    pub fn all_for_type(db: &HirDatabase, ty: Type) -> (r: Vec<Impl>)
        requires
            db.impls@.len() <= u32::MAX,
            db.crates@.len() <= u32::MAX,
        ensures
            r@ == all_for_type_spec(db, ty.ty),
    {
        let mut all: Vec<Impl> = Vec::new();
        let def = match def_crate_of(db, ty.ty) {
            Some(def) => def,
            None => {
                assert(all@ =~= all_for_type_spec(db, ty.ty));
                return all;
            },
        };
        collect_impls_in_crate(db, ty.ty, def, true, &mut all);
        let ghost inherent = all@;
        assert(inherent =~= impls_in_crate(db, ty.ty, def, true, db.impls@.len() as int));
        let reach = reach_flags(db, def);
        let mut c: usize = 0;
        while c < db.crates.len()
            invariant
                c <= db.crates@.len() <= u32::MAX,
                db.impls@.len() <= u32::MAX,
                reach@.len() == db.crates@.len(),
                forall|j: int| 0 <= j < reach@.len() ==> reach@[j] == reaches(db, j, def as int),
                all@ == inherent + trait_impls_upto(db, ty.ty, def, c as int),
            decreases db.crates@.len() - c,
        {
            let ghost before = all@;
            if reach[c] {
                collect_impls_in_crate(db, ty.ty, c as u32, false, &mut all);
            }
            c = c + 1;
            assert(all@ =~= inherent + trait_impls_upto(db, ty.ty, def, c as int));
        }
        all
    }
}


pub open spec fn function_name(db: &HirDatabase, f: Function) -> Option<Name> {
    if f.id < db.functions@.len() {
        Some(db.functions@[f.id as int].name)
    } else {
        None
    }
}

pub open spec fn assoc_item_name(db: &HirDatabase, item: AssocItem) -> Option<Name> {
    match item {
        AssocItem::Function(f) => function_name(db, f),
        AssocItem::Const(c) => if c.id < db.consts@.len() { db.consts@[c.id as int].name } else { None },
        AssocItem::TypeAlias(a) => if a.id < db.type_aliases@.len() {
            Some(db.type_aliases@[a.id as int].name)
        } else {
            None
        },
    }
}

pub fn assoc_item_name_of(db: &HirDatabase, item: AssocItem) -> (r: Option<Name>)
    ensures
        r == assoc_item_name(db, item),
{
    match item {
        AssocItem::Function(f) => if (f.id as usize) < db.functions.len() { Some(db.functions[f.id as usize].name) } else { None },
        AssocItem::Const(c) => if (c.id as usize) < db.consts.len() { db.consts[c.id as usize].name } else { None },
        AssocItem::TypeAlias(a) => if (a.id as usize) < db.type_aliases.len() {
            Some(db.type_aliases[a.id as usize].name)
        } else {
            None
        },
    }
}

/// An item passes the name filter when there is none or its name equals it.
pub open spec fn name_matches(db: &HirDatabase, item: AssocItem, name: Option<Name>) -> bool {
    name is None || assoc_item_name(db, item) == name
}

/// An impl takes part in the search when it is inherent or implements a trait in scope.
pub open spec fn impl_in_scope(db: &HirDatabase, i: Impl, traits: Seq<Trait>) -> bool {
    i.id < db.impls@.len() && match db.impls@[i.id as int].trait_ {
        None => true,
        Some(tr) => traits.contains(tr),
    }
}

/// The items among the first `k` of `items` that pass the name filter
/// (and are functions, when `methods` holds).
pub open spec fn matching_items(db: &HirDatabase, items: Seq<AssocItem>, k: int, name: Option<Name>, methods: bool) -> Seq<AssocItem>
    decreases k,
{
    if k <= 0 || k > items.len() {
        Seq::empty()
    } else {
        matching_items(db, items, k - 1, name, methods) + if name_matches(db, items[k - 1], name) && (!methods
            || items[k - 1] is Function) {
            seq![items[k - 1]]
        } else {
            Seq::empty()
        }
    }
}

pub open spec fn impl_candidates(db: &HirDatabase, i: Impl, traits: Seq<Trait>, name: Option<Name>, methods: bool) -> Seq<AssocItem> {
    if impl_in_scope(db, i, traits) {
        let items = db.impls@[i.id as int].items@;
        matching_items(db, items, items.len() as int, name, methods)
    } else {
        Seq::empty()
    }
}

/// The candidates of the impls of `impls`, impl after impl.
pub open spec fn candidates_in(db: &HirDatabase, impls: Seq<Impl>, traits: Seq<Trait>, name: Option<Name>, methods: bool) -> Seq<AssocItem>
    decreases impls.len(),
{
    if impls.len() == 0 {
        Seq::empty()
    } else {
        candidates_in(db, impls.drop_last(), traits, name, methods) + impl_candidates(db, impls.last(), traits, name, methods)
    }
}

/// The candidates for `t` in search order: those of inherent impls before those of trait impls.
pub open spec fn candidates_spec(db: &HirDatabase, t: u32, traits: Seq<Trait>, name: Option<Name>, methods: bool) -> Seq<AssocItem> {
    candidates_in(db, all_for_type_spec(db, t), traits, name, methods)
}

pub proof fn lemma_candidates_concat(db: &HirDatabase, a: Seq<Impl>, b: Seq<Impl>, traits: Seq<Trait>, name: Option<Name>, methods: bool)
    ensures
        candidates_in(db, a + b, traits, name, methods) == candidates_in(db, a, traits, name, methods) + candidates_in(db, b, traits, name, methods),
    decreases b.len(),
{
    if b.len() == 0 {
        assert(a + b =~= a);
        assert(candidates_in(db, a, traits, name, methods) + Seq::<AssocItem>::empty() =~= candidates_in(db, a, traits, name, methods));
    } else {
        assert((a + b).drop_last() =~= a + b.drop_last());
        lemma_candidates_concat(db, a, b.drop_last(), traits, name, methods);
        assert((a + b).last() == b.last());
    }
}

fn push_matching_items(db: &HirDatabase, items: &Vec<AssocItem>, name: Option<Name>, methods: bool, out: &mut Vec<AssocItem>)
    ensures
        final(out)@ == old(out)@ + matching_items(db, items@, items@.len() as int, name, methods),
{
    let ghost out0 = out@;
    let mut j: usize = 0;
    while j < items.len()
        invariant
            j <= items@.len(),
            out@ == out0 + matching_items(db, items@, j as int, name, methods),
        decreases items@.len() - j,
    {
        let item = items[j];
        let named = match name {
            None => true,
            Some(n) => match assoc_item_name_of(db, item) {
                Some(m) => m == n,
                None => false,
            },
        };
        let kind_ok = !methods || match item {
            AssocItem::Function(_) => true,
            _ => false,
        };
        if named && kind_ok {
            out.push(item);
        }
        j = j + 1;
        assert(out@ =~= out0 + matching_items(db, items@, j as int, name, methods));
    }
}

fn contains_trait(v: &Vec<Trait>, t: Trait) -> (r: bool)
    ensures
        r == v@.contains(t),
{
    let mut i: usize = 0;
    while i < v.len()
        invariant
            i <= v@.len(),
            forall|j: int| 0 <= j < i ==> v@[j] != t,
        decreases v@.len() - i,
    {
        if v[i] == t {
            return true;
        }
        i = i + 1;
    }
    false
}

fn candidates_of(db: &HirDatabase, impls: &Vec<Impl>, traits: &Vec<Trait>, name: Option<Name>, methods: bool) -> (r: Vec<AssocItem>)
    ensures
        r@ == candidates_in(db, impls@, traits@, name, methods),
{
    let mut out: Vec<AssocItem> = Vec::new();
    let mut i: usize = 0;
    while i < impls.len()
        invariant
            i <= impls@.len(),
            out@ == candidates_in(db, impls@.take(i as int), traits@, name, methods),
        decreases impls@.len() - i,
    {
        let ghost before = out@;
        let imp = impls[i];
        if (imp.id as usize) < db.impls.len() {
            let data = &db.impls[imp.id as usize];
            let in_scope = match data.trait_ {
                None => true,
                Some(tr) => contains_trait(traits, tr),
            };
            if in_scope {
                push_matching_items(db, &data.items, name, methods, &mut out);
            }
        }
        assert(impls@.take(i + 1).drop_last() =~= impls@.take(i as int));
        assert(out@ =~= before + impl_candidates(db, imp, traits@, name, methods));
        i = i + 1;
    }
    assert(impls@.take(i as int) =~= impls@);
    out
}

impl Type {
    /// The associated items reachable by a path on this type (`T::item`), in
    /// search order, optionally only those named `name`. The first candidate
    /// a caller accepts is the result of the lookup.
    pub fn iterate_path_candidates(&self, db: &HirDatabase, traits_in_scope: &Vec<Trait>, name: Option<Name>) -> (r: Vec<AssocItem>)
        requires
            db.impls@.len() <= u32::MAX,
            db.crates@.len() <= u32::MAX,
        ensures
            r@ == candidates_spec(db, self.ty, traits_in_scope@, name, false),
    {
        let impls = Impl::all_for_type(db, *self);
        candidates_of(db, &impls, traits_in_scope, name, false)
    }

    /// The methods callable on this type, in search order, optionally only
    /// those named `name`.
    pub fn iterate_method_candidates(&self, db: &HirDatabase, traits_in_scope: &Vec<Trait>, name: Option<Name>) -> (r: Vec<Function>)
        requires
            db.impls@.len() <= u32::MAX,
            db.crates@.len() <= u32::MAX,
        ensures
            r@.len() == candidates_spec(db, self.ty, traits_in_scope@, name, true).len(),
            forall|i: int| 0 <= i < r@.len() ==> candidates_spec(db, self.ty, traits_in_scope@, name, true)[i]
                == AssocItem::Function(#[trigger] r@[i]),
    {
        let impls = Impl::all_for_type(db, *self);
        let items = candidates_of(db, &impls, traits_in_scope, name, true);
        proof {
            lemma_candidates_are_methods(db, impls@, traits_in_scope@, name);
        }
        let mut r: Vec<Function> = Vec::new();
        let mut i: usize = 0;
        while i < items.len()
            invariant
                i <= items@.len(),
                r@.len() == i,
                forall|j: int| 0 <= j < items@.len() ==> #[trigger] items@[j] is Function,
                forall|j: int| 0 <= j < i ==> items@[j] == AssocItem::Function(#[trigger] r@[j]),
            decreases items@.len() - i,
        {
            match items[i] {
                AssocItem::Function(f) => r.push(f),
                _ => {
                    assert(items@[i as int] is Function);
                },
            }
            i = i + 1;
        }
        r
    }
}

pub proof fn lemma_matching_items_are_methods(db: &HirDatabase, items: Seq<AssocItem>, k: int, name: Option<Name>)
    ensures
        forall|j: int| 0 <= j < matching_items(db, items, k, name, true).len() ==> #[trigger] matching_items(db, items, k, name, true)[j] is Function,
    decreases k,
{
    if 0 < k <= items.len() {
        lemma_matching_items_are_methods(db, items, k - 1, name);
    }
}

pub proof fn lemma_candidates_are_methods(db: &HirDatabase, impls: Seq<Impl>, traits: Seq<Trait>, name: Option<Name>)
    ensures
        forall|j: int| 0 <= j < candidates_in(db, impls, traits, name, true).len() ==> #[trigger] candidates_in(db, impls, traits, name, true)[j] is Function,
    decreases impls.len(),
{
    if impls.len() > 0 {
        lemma_candidates_are_methods(db, impls.drop_last(), traits, name);
        let i = impls.last();
        if impl_in_scope(db, i, traits) {
            let items = db.impls@[i.id as int].items@;
            lemma_matching_items_are_methods(db, items, items.len() as int, name);
        }
    }
}


pub proof fn lemma_impls_in_crate_kind(db: &HirDatabase, t: u32, c: u32, inherent: bool, k: int)
    requires
        k <= db.impls@.len() <= u32::MAX,
    ensures
        forall|j: int| 0 <= j < impls_in_crate(db, t, c, inherent, k).len() ==> {
            let i = #[trigger] impls_in_crate(db, t, c, inherent, k)[j];
            i.id < db.impls@.len() && (db.impls@[i.id as int].trait_ is None) == inherent
        },
    decreases k,
{
    if k > 0 {
        lemma_impls_in_crate_kind(db, t, c, inherent, k - 1);
        let prev = impls_in_crate(db, t, c, inherent, k - 1);
        let cur = impls_in_crate(db, t, c, inherent, k);
        assert forall|j: int| 0 <= j < cur.len() implies {
            let i = #[trigger] cur[j];
            i.id < db.impls@.len() && (db.impls@[i.id as int].trait_ is None) == inherent
        } by {
            if j < prev.len() {
                assert(cur[j] == prev[j]);
            }
        }
    }
}

pub proof fn lemma_trait_impls_kind(db: &HirDatabase, t: u32, def: u32, c: int)
    requires
        db.impls@.len() <= u32::MAX,
    ensures
        forall|j: int| 0 <= j < trait_impls_upto(db, t, def, c).len() ==> {
            let i = #[trigger] trait_impls_upto(db, t, def, c)[j];
            i.id < db.impls@.len() && db.impls@[i.id as int].trait_ is Some
        },
    decreases c,
{
    if c > 0 {
        lemma_trait_impls_kind(db, t, def, c - 1);
        lemma_impls_in_crate_kind(db, t, (c - 1) as u32, false, db.impls@.len() as int);
        let prev = trait_impls_upto(db, t, def, c - 1);
        let cur = trait_impls_upto(db, t, def, c);
        assert forall|j: int| 0 <= j < cur.len() implies {
            let i = #[trigger] cur[j];
            i.id < db.impls@.len() && db.impls@[i.id as int].trait_ is Some
        } by {
            if j < prev.len() {
                assert(cur[j] == prev[j]);
            } else {
                let part = impls_in_crate(db, t, (c - 1) as u32, false, db.impls@.len() as int);
                assert(cur[j] == part[j - prev.len()]);
            }
        }
    }
}

/// The inherent impls that the search for `t` visits, in order.
pub open spec fn inherent_impls_for(db: &HirDatabase, t: u32) -> Seq<Impl> {
    match def_crate(db, t) {
        Some(def) => impls_in_crate(db, t, def, true, db.impls@.len() as int),
        None => Seq::empty(),
    }
}

/// The trait impls that the search for `t` visits, in order.
pub open spec fn trait_impls_for(db: &HirDatabase, t: u32) -> Seq<Impl> {
    match def_crate(db, t) {
        Some(def) => trait_impls_upto(db, t, def, db.crates@.len() as int),
        None => Seq::empty(),
    }
}

/// Candidate search yields every candidate of an inherent impl before any
/// candidate of a trait impl. So when a type has an inherent method and a
/// trait method of one name, the search for that name meets the inherent one
/// first.
pub proof fn lemma_inherent_candidates_first(db: &HirDatabase, t: u32, traits: Seq<Trait>, name: Option<Name>, methods: bool)
    requires
        db.impls@.len() <= u32::MAX,
    ensures
        candidates_spec(db, t, traits, name, methods) == candidates_in(db, inherent_impls_for(db, t), traits, name, methods)
            + candidates_in(db, trait_impls_for(db, t), traits, name, methods),
        forall|j: int| 0 <= j < inherent_impls_for(db, t).len() ==> {
            let i = #[trigger] inherent_impls_for(db, t)[j];
            i.id < db.impls@.len() && db.impls@[i.id as int].trait_ is None
        },
        forall|j: int| 0 <= j < trait_impls_for(db, t).len() ==> {
            let i = #[trigger] trait_impls_for(db, t)[j];
            i.id < db.impls@.len() && db.impls@[i.id as int].trait_ is Some
        },
{
    match def_crate(db, t) {
        Some(def) => {
            let inh = impls_in_crate(db, t, def, true, db.impls@.len() as int);
            let tr = trait_impls_upto(db, t, def, db.crates@.len() as int);
            lemma_candidates_concat(db, inh, tr, traits, name, methods);
            lemma_impls_in_crate_kind(db, t, def, true, db.impls@.len() as int);
            lemma_trait_impls_kind(db, t, def, db.crates@.len() as int);
        },
        None => {
            let e = Seq::<Impl>::empty();
            assert(candidates_spec(db, t, traits, name, methods) =~= candidates_in(db, e, traits, name, methods)
                + candidates_in(db, e, traits, name, methods));
        },
    }
}


/// Impl `i` belongs to crate `c` and is inherent, or not, as `inherent` says.
pub open spec fn impl_in_crate(db: &HirDatabase, i: int, c: u32, inherent: bool) -> bool {
    &&& 0 <= i < db.impls@.len()
    &&& (db.impls@[i].trait_ is None) == inherent
    &&& module_crate(db, db.impls@[i].module) == Some(c)
}

/// The impls among the first `k` that satisfy `p`, by increasing id.
pub open spec fn impls_where(db: &HirDatabase, p: spec_fn(int) -> bool, k: int) -> Seq<Impl>
    decreases k,
{
    if k <= 0 {
        Seq::empty()
    } else {
        impls_where(db, p, k - 1) + if p(k - 1) {
            seq![Impl { id: (k - 1) as u32 }]
        } else {
            Seq::empty()
        }
    }
}

/// Impl `i` implements trait `t` and lives in crate `c`.
pub open spec fn impl_of_trait_in(db: &HirDatabase, i: int, t: Trait, c: u32) -> bool {
    &&& 0 <= i < db.impls@.len()
    &&& db.impls@[i].trait_ == Some(t)
    &&& module_crate(db, db.impls@[i].module) == Some(c)
}

/// The impls of trait `t` in the first `c` crates that reach `def`, crate by crate.
pub open spec fn trait_impls_of_upto(db: &HirDatabase, t: Trait, def: u32, c: int) -> Seq<Impl>
    decreases c,
{
    if c <= 0 {
        Seq::empty()
    } else {
        trait_impls_of_upto(db, t, def, c - 1) + if reaches(db, c - 1, def as int) {
            impls_where(db, |i: int| impl_of_trait_in(db, i, t, (c - 1) as u32), db.impls@.len() as int)
        } else {
            Seq::empty()
        }
    }
}

fn impl_crate_of(db: &HirDatabase, i: usize) -> (r: Option<u32>)
    requires
        i < db.impls@.len(),
    ensures
        r == module_crate(db, db.impls@[i as int].module),
{
    let m = db.impls[i].module as usize;
    if m < db.modules.len() {
        Some(db.modules[m].krate)
    } else {
        None
    }
}

fn collect_impls_of_trait(db: &HirDatabase, t: Trait, c: u32, out: &mut Vec<Impl>)
    requires
        db.impls@.len() <= u32::MAX,
    ensures
        final(out)@ == old(out)@ + impls_where(db, |i: int| impl_of_trait_in(db, i, t, c), db.impls@.len() as int),
{
    let ghost out0 = out@;
    let mut i: usize = 0;
    while i < db.impls.len()
        invariant
            i <= db.impls@.len() <= u32::MAX,
            out@ == out0 + impls_where(db, |i: int| impl_of_trait_in(db, i, t, c), i as int),
        decreases db.impls@.len() - i,
    {
        let hit = match db.impls[i].trait_ {
            Some(tr) => tr == t && impl_crate_of(db, i) == Some(c),
            None => false,
        };
        if hit {
            out.push(Impl { id: i as u32 });
        }
        i = i + 1;
        assert(out@ =~= out0 + impls_where(db, |i: int| impl_of_trait_in(db, i, t, c), i as int));
    }
}

fn collect_impls_in(db: &HirDatabase, c: u32, inherent: bool, out: &mut Vec<Impl>)
    requires
        db.impls@.len() <= u32::MAX,
    ensures
        final(out)@ == old(out)@ + impls_where(db, |i: int| impl_in_crate(db, i, c, inherent), db.impls@.len() as int),
{
    let ghost out0 = out@;
    let mut i: usize = 0;
    while i < db.impls.len()
        invariant
            i <= db.impls@.len() <= u32::MAX,
            out@ == out0 + impls_where(db, |i: int| impl_in_crate(db, i, c, inherent), i as int),
        decreases db.impls@.len() - i,
    {
        if db.impls[i].trait_.is_none() == inherent && impl_crate_of(db, i) == Some(c) {
            out.push(Impl { id: i as u32 });
        }
        i = i + 1;
        assert(out@ =~= out0 + impls_where(db, |i: int| impl_in_crate(db, i, c, inherent), i as int));
    }
}

impl Impl {
    /// The impls of a crate: its inherent impls, then its trait impls.
    pub fn all_in_crate(db: &HirDatabase, krate: crate::entity::Crate) -> (r: Vec<Impl>)
        requires
            db.impls@.len() <= u32::MAX,
        ensures
            r@ == impls_where(db, |i: int| impl_in_crate(db, i, krate.id, true), db.impls@.len() as int)
                + impls_where(db, |i: int| impl_in_crate(db, i, krate.id, false), db.impls@.len() as int),
    {
        let mut all: Vec<Impl> = Vec::new();
        collect_impls_in(db, krate.id, true, &mut all);
        collect_impls_in(db, krate.id, false, &mut all);
        all
    }

    /// The impls of `trait_` in the crate that declares it and in every crate
    /// depending on that one, crate by crate.
    pub fn all_for_trait(db: &HirDatabase, trait_: Trait) -> (r: Vec<Impl>)
        requires
            db.impls@.len() <= u32::MAX,
            db.crates@.len() <= u32::MAX,
        ensures
            r@ == match (if trait_.id < db.traits@.len() { module_crate(db, db.traits@[trait_.id as int].module) } else { None }) {
                Some(def) => trait_impls_of_upto(db, trait_, def, db.crates@.len() as int),
                None => Seq::empty(),
            },
    {
        let mut all: Vec<Impl> = Vec::new();
        if (trait_.id as usize) >= db.traits.len() {
            return all;
        }
        let m = db.traits[trait_.id as usize].module as usize;
        if m >= db.modules.len() {
            return all;
        }
        let def = db.modules[m].krate;
        let reach = reach_flags(db, def);
        let mut c: usize = 0;
        while c < db.crates.len()
            invariant
                c <= db.crates@.len() <= u32::MAX,
                db.impls@.len() <= u32::MAX,
                reach@.len() == db.crates@.len(),
                forall|j: int| 0 <= j < reach@.len() ==> reach@[j] == reaches(db, j, def as int),
                all@ == trait_impls_of_upto(db, trait_, def, c as int),
            decreases db.crates@.len() - c,
        {
            if reach[c] {
                collect_impls_of_trait(db, trait_, c as u32, &mut all);
            }
            c = c + 1;
            assert(all@ =~= trait_impls_of_upto(db, trait_, def, c as int));
        }
        all
    }
}

impl Type {
    /// The items of the inherent impls of this type, in search order.
    pub fn iterate_assoc_items(&self, db: &HirDatabase) -> (r: Vec<AssocItem>)
        requires
            db.impls@.len() <= u32::MAX,
        ensures
            r@ == candidates_in(db, inherent_impls_for(db, self.ty), Seq::empty(), None, false),
    {
        let mut impls: Vec<Impl> = Vec::new();
        match def_crate_of(db, self.ty) {
            Some(def) => collect_impls_in_crate(db, self.ty, def, true, &mut impls),
            None => {},
        }
        assert(impls@ =~= inherent_impls_for(db, self.ty));
        candidates_of(db, &impls, &Vec::new(), None, false)
    }
}

} // verus!
