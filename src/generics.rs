//! Generic parameters: lifetimes, and type or const parameters split on demand.
use vstd::prelude::*;
use crate::db::{GenericParamsData, HirDatabase, Name, TypeOrConstParamData, TypeParamProvenance};
use crate::entity::{
    ConstParam, GenericDef, GenericParam, LifetimeParam, Trait, TypeOrConstParam, TypeParam,
};
use crate::ty::Type;

verus! {

/// The index of the first generics record of `def` among `gs[i..]`.
pub open spec fn generics_from(gs: Seq<GenericParamsData>, def: GenericDef, i: int) -> Option<int>
    decreases gs.len() - i,
{
    if i < 0 || i >= gs.len() {
        None
    } else if gs[i].owner == def {
        Some(i)
    } else {
        generics_from(gs, def, i + 1)
    }
}

/// The generics record of `def`; a definition without one declares no parameters.
pub open spec fn generics_of(db: &HirDatabase, def: GenericDef) -> Option<int> {
    generics_from(db.generics@, def, 0)
}

fn find_generics(db: &HirDatabase, def: GenericDef) -> (r: Option<usize>)
    ensures
        r matches Some(j) ==> j < db.generics@.len(),
        match r {
            Some(j) => generics_of(db, def) == Some(j as int),
            None => generics_of(db, def) is None,
        },
{
    let mut i: usize = 0;
    while i < db.generics.len()
        invariant
            i <= db.generics@.len(),
            generics_from(db.generics@, def, i as int) == generics_of(db, def),
        decreases db.generics@.len() - i,
    {
        if db.generics[i].owner == def {
            return Some(i);
        }
        i = i + 1;
    }
    None
}

/// The type or const slots of `def`, empty when it declares none.
pub open spec fn slots_of(db: &HirDatabase, def: GenericDef) -> Seq<TypeOrConstParamData> {
    match generics_of(db, def) {
        Some(j) => db.generics@[j].type_or_consts@,
        None => Seq::empty(),
    }
}

pub open spec fn lifetimes_of(db: &HirDatabase, def: GenericDef) -> Seq<Name> {
    match generics_of(db, def) {
        Some(j) => db.generics@[j].lifetimes@,
        None => Seq::empty(),
    }
}

/// A slot as the parameter kind it holds.
pub open spec fn split_spec(db: &HirDatabase, p: TypeOrConstParam) -> GenericParam {
    if p.local_id < slots_of(db, p.parent).len() && slots_of(db, p.parent)[p.local_id as int] is ConstParam {
        GenericParam::ConstParam(ConstParam { parent: p.parent, local_id: p.local_id })
    } else {
        GenericParam::TypeParam(TypeParam { parent: p.parent, local_id: p.local_id })
    }
}

/// The lifetimes of `def`, then its type and const parameters.
pub open spec fn params_spec(db: &HirDatabase, def: GenericDef) -> Seq<GenericParam> {
    Seq::new(lifetimes_of(db, def).len(), |i: int| GenericParam::LifetimeParam(LifetimeParam { parent: def, local_id: i as u32 }))
        + Seq::new(slots_of(db, def).len(), |i: int| split_spec(db, TypeOrConstParam { parent: def, local_id: i as u32 }))
}

/// The slot counts toward the parameters a user writes: implicit type
/// parameters do not, and with `required_only` neither do defaulted ones.
pub open spec fn counted(d: TypeOrConstParamData, required_only: bool) -> bool {
    match d {
        TypeOrConstParamData::TypeParam { provenance, default, .. } => provenance == TypeParamProvenance::TypeParamList
            && (!required_only || default is None),
        TypeOrConstParamData::ConstParam { .. } => true,
    }
}

pub open spec fn count_slots(s: Seq<TypeOrConstParamData>, k: int, required_only: bool) -> nat
    decreases k,
{
    if k <= 0 || k > s.len() {
        0
    } else {
        count_slots(s, k - 1, required_only) + if counted(s[k - 1], required_only) { 1nat } else { 0nat }
    }
}

pub proof fn lemma_count_slots_bound(s: Seq<TypeOrConstParamData>, k: int, required_only: bool)
    requires
        0 <= k <= s.len(),
    ensures
        count_slots(s, k, required_only) <= k,
    decreases k,
{
    if k > 0 {
        lemma_count_slots_bound(s, k - 1, required_only);
    }
}

fn slot_count(db: &HirDatabase, def: GenericDef) -> (r: (usize, usize))
    ensures
        r.0 == lifetimes_of(db, def).len(),
        r.1 == slots_of(db, def).len(),
{
    match find_generics(db, def) {
        Some(j) => (db.generics[j].lifetimes.len(), db.generics[j].type_or_consts.len()),
        None => (0, 0),
    }
}

impl TypeOrConstParam {
    /// The slot as a type parameter or a const parameter.
    pub fn split(self, db: &HirDatabase) -> (r: GenericParam)
        ensures
            r == split_spec(db, self),
    {
        let is_const = match find_generics(db, self.parent) {
            Some(j) => {
                let slots = &db.generics[j].type_or_consts;
                (self.local_id as usize) < slots.len() && match slots[self.local_id as usize] {
                    TypeOrConstParamData::ConstParam { .. } => true,
                    _ => false,
                }
            },
            None => false,
        };
        if is_const {
            GenericParam::ConstParam(ConstParam { parent: self.parent, local_id: self.local_id })
        } else {
            GenericParam::TypeParam(TypeParam { parent: self.parent, local_id: self.local_id })
        }
    }

    /// The parameter's name; none where the slot is missing or unnamed.
    pub fn name(self, db: &HirDatabase) -> (r: Option<Name>)
        ensures
            r == if self.local_id < slots_of(db, self.parent).len() {
                match slots_of(db, self.parent)[self.local_id as int] {
                    TypeOrConstParamData::TypeParam { name, .. } => name,
                    TypeOrConstParamData::ConstParam { name, .. } => Some(name),
                }
            } else {
                None
            },
    {
        match find_generics(db, self.parent) {
            Some(j) => {
                let slots = &db.generics[j].type_or_consts;
                if (self.local_id as usize) < slots.len() {
                    match &slots[self.local_id as usize] {
                        TypeOrConstParamData::TypeParam { name, .. } => *name,
                        TypeOrConstParamData::ConstParam { name, .. } => Some(*name),
                    }
                } else {
                    None
                }
            },
            None => None,
        }
    }

    pub fn parent(self) -> (r: GenericDef)
        ensures
            r == self.parent,
    {
        self.parent
    }
}

impl TypeParam {
    pub fn merge(self) -> (r: TypeOrConstParam)
        ensures
            r == (TypeOrConstParam { parent: self.parent, local_id: self.local_id }),
    {
        TypeOrConstParam { parent: self.parent, local_id: self.local_id }
    }

    pub open spec fn data(self, db: &HirDatabase) -> Option<TypeOrConstParamData> {
        if self.local_id < slots_of(db, self.parent).len() {
            Some(slots_of(db, self.parent)[self.local_id as int])
        } else {
            None
        }
    }

    /// Introduced without being written in a parameter list: the `Self` of a
    /// trait, or an `impl Trait` argument.
    pub fn is_implicit(self, db: &HirDatabase) -> (r: bool)
        ensures
            r == (self.data(db) matches Some(TypeOrConstParamData::TypeParam { provenance, .. })
                && provenance != TypeParamProvenance::TypeParamList),
    {
        match find_generics(db, self.parent) {
            Some(j) => {
                let slots = &db.generics[j].type_or_consts;
                (self.local_id as usize) < slots.len() && match &slots[self.local_id as usize] {
                    TypeOrConstParamData::TypeParam { provenance, .. } => *provenance != TypeParamProvenance::TypeParamList,
                    _ => false,
                }
            },
            None => false,
        }
    }

    /// The traits the parameter's own declaration bounds it by.
    pub fn trait_bounds(self, db: &HirDatabase) -> (r: Vec<Trait>)
        ensures
            r@ == match self.data(db) {
                Some(TypeOrConstParamData::TypeParam { bounds, .. }) => bounds@,
                _ => Seq::empty(),
            },
    {
        let mut r: Vec<Trait> = Vec::new();
        if let Some(j) = find_generics(db, self.parent) {
            let slots = &db.generics[j].type_or_consts;
            if (self.local_id as usize) < slots.len() {
                if let TypeOrConstParamData::TypeParam { bounds, .. } = &slots[self.local_id as usize] {
                    let mut i: usize = 0;
                    while i < bounds.len()
                        invariant
                            i <= bounds@.len(),
                            r@ == bounds@.take(i as int),
                        decreases bounds@.len() - i,
                    {
                        r.push(bounds[i]);
                        i = i + 1;
                        assert(r@ =~= bounds@.take(i as int));
                    }
                    assert(bounds@.take(i as int) =~= bounds@);
                }
            }
        }
        r
    }

    /// The placeholder type of the parameter, in its definition's environment.
    pub fn ty(self, db: &HirDatabase) -> (r: Option<Type>)
        ensures
            r == match (generics_of(db, self.parent), self.data(db)) {
                (Some(j), Some(TypeOrConstParamData::TypeParam { ty, .. })) => Some(Type { ty, env: db.generics@[j].env }),
                _ => None,
            },
    {
        match find_generics(db, self.parent) {
            Some(j) => {
                let slots = &db.generics[j].type_or_consts;
                if (self.local_id as usize) < slots.len() {
                    match &slots[self.local_id as usize] {
                        TypeOrConstParamData::TypeParam { ty, .. } => Some(Type { ty: *ty, env: db.generics[j].env }),
                        _ => None,
                    }
                } else {
                    None
                }
            },
            None => None,
        }
    }

    /// The default the parameter declares, in its definition's environment.
    pub fn default(self, db: &HirDatabase) -> (r: Option<Type>)
        ensures
            r == match (generics_of(db, self.parent), self.data(db)) {
                (Some(j), Some(TypeOrConstParamData::TypeParam { default: Some(d), .. })) => Some(Type { ty: d, env: db.generics@[j].env }),
                _ => None,
            },
    {
        match find_generics(db, self.parent) {
            Some(j) => {
                let slots = &db.generics[j].type_or_consts;
                if (self.local_id as usize) < slots.len() {
                    match &slots[self.local_id as usize] {
                        TypeOrConstParamData::TypeParam { default: Some(d), .. } => Some(Type { ty: *d, env: db.generics[j].env }),
                        _ => None,
                    }
                } else {
                    None
                }
            },
            None => None,
        }
    }
}

/// Some type parameter of `def` declares no default.
pub fn has_type_param_without_default(db: &HirDatabase, def: GenericDef) -> (r: bool)
    ensures
        r == exists|i: int| 0 <= i < slots_of(db, def).len()
            && (#[trigger] slots_of(db, def)[i]) matches TypeOrConstParamData::TypeParam { default: None, .. },
{
    let j = match find_generics(db, def) {
        Some(j) => j,
        None => return false,
    };
    let slots = &db.generics[j].type_or_consts;
    let mut i: usize = 0;
    while i < slots.len()
        invariant
            i <= slots@.len(),
            slots@ == slots_of(db, def),
            forall|k: int| 0 <= k < i ==> !((#[trigger] slots@[k]) matches TypeOrConstParamData::TypeParam { default: None, .. }),
        decreases slots@.len() - i,
    {
        match &slots[i] {
            TypeOrConstParamData::TypeParam { default: None, .. } => return true,
            _ => {},
        }
        i = i + 1;
    }
    false
}

impl ConstParam {
    pub fn merge(self) -> (r: TypeOrConstParam)
        ensures
            r == (TypeOrConstParam { parent: self.parent, local_id: self.local_id }),
    {
        TypeOrConstParam { parent: self.parent, local_id: self.local_id }
    }
}

impl GenericDef {
    /// Every generic parameter: the lifetimes, then the type and const
    /// parameters, each in declaration order.
    pub fn params(self, db: &HirDatabase) -> (r: Vec<GenericParam>)
        requires
            lifetimes_of(db, self).len() <= u32::MAX,
            slots_of(db, self).len() <= u32::MAX,
        ensures
            r@ == params_spec(db, self),
    {
        let (n_lt, n_toc) = slot_count(db, self);
        let mut r: Vec<GenericParam> = Vec::new();
        let mut i: usize = 0;
        while i < n_lt
            invariant
                i <= n_lt <= u32::MAX,
                n_lt == lifetimes_of(db, self).len(),
                r@ == Seq::new(i as nat, |k: int| GenericParam::LifetimeParam(LifetimeParam { parent: self, local_id: k as u32 })),
            decreases n_lt - i,
        {
            r.push(GenericParam::LifetimeParam(LifetimeParam { parent: self, local_id: i as u32 }));
            i = i + 1;
            assert(r@ =~= Seq::new(i as nat, |k: int| GenericParam::LifetimeParam(LifetimeParam { parent: self, local_id: k as u32 })));
        }
        let ghost head = r@;
        let mut j: usize = 0;
        while j < n_toc
            invariant
                j <= n_toc <= u32::MAX,
                n_toc == slots_of(db, self).len(),
                r@ == head + Seq::new(j as nat, |k: int| split_spec(db, TypeOrConstParam { parent: self, local_id: k as u32 })),
            decreases n_toc - j,
        {
            r.push(TypeOrConstParam { parent: self, local_id: j as u32 }.split(db));
            j = j + 1;
            assert(r@ =~= head + Seq::new(j as nat, |k: int| split_spec(db, TypeOrConstParam { parent: self, local_id: k as u32 })));
        }
        r
    }

    /// The type and const parameter slots, in declaration order.
    pub fn type_params(self, db: &HirDatabase) -> (r: Vec<TypeOrConstParam>)
        requires
            slots_of(db, self).len() <= u32::MAX,
        ensures
            r@ == Seq::new(slots_of(db, self).len(), |k: int| TypeOrConstParam { parent: self, local_id: k as u32 }),
    {
        let (_, n) = slot_count(db, self);
        let mut r: Vec<TypeOrConstParam> = Vec::new();
        let mut j: usize = 0;
        while j < n
            invariant
                j <= n <= u32::MAX,
                r@ == Seq::new(j as nat, |k: int| TypeOrConstParam { parent: self, local_id: k as u32 }),
            decreases n - j,
        {
            r.push(TypeOrConstParam { parent: self, local_id: j as u32 });
            j = j + 1;
            assert(r@ =~= Seq::new(j as nat, |k: int| TypeOrConstParam { parent: self, local_id: k as u32 }));
        }
        r
    }
}

impl Trait {
    /// How many type and const parameters a use of the trait spells out;
    /// with `count_required_only`, leaving out those with defaults.
    pub fn type_or_const_param_count(self, db: &HirDatabase, count_required_only: bool) -> (r: usize)
        ensures
            r == count_slots(slots_of(db, GenericDef::Trait(self)), slots_of(db, GenericDef::Trait(self)).len() as int, count_required_only),
    {
        let def = GenericDef::Trait(self);
        let j = match find_generics(db, def) {
            Some(j) => j,
            None => return 0,
        };
        let slots = &db.generics[j].type_or_consts;
        let mut n: usize = 0;
        let mut i: usize = 0;
        while i < slots.len()
            invariant
                i <= slots@.len(),
                slots@ == slots_of(db, def),
                n == count_slots(slots@, i as int, count_required_only),
            decreases slots@.len() - i,
        {
            proof {
                lemma_count_slots_bound(slots@, i as int, count_required_only);
            }
            let counts = match &slots[i] {
                TypeOrConstParamData::TypeParam { provenance, default, .. } => *provenance == TypeParamProvenance::TypeParamList
                    && (!count_required_only || default.is_none()),
                TypeOrConstParamData::ConstParam { .. } => true,
            };
            if counts {
                n = n + 1;
            }
            i = i + 1;
        }
        n
    }
}

} // verus!
