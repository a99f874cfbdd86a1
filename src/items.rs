//! Accessors of the item handles: where each is declared, its name and its
//! visibility, all read from the snapshot.
use vstd::prelude::*;
use crate::ty::Type;
use crate::db::{
    Access, BindingMode, Body, HirDatabase, ItemContainer, MacroExpander, MacroKind, Name, Pat, ProcMacroKind,
    Visibility,
};
use crate::entity::{
    Adt, AssocItem, AssocItemContainer, Field, Impl, Param, SelfParam, Variant, VariantDef,
    Const, DefWithBody, Enum, Function, Local, Macro, Module, ModuleDef, Static, Struct, Trait, TypeAlias,
    Union,
};

verus! {

impl DefWithBody {
    /// The handle names a record of the snapshot.
    pub open spec fn valid(self, db: &HirDatabase) -> bool {
        match self {
            DefWithBody::Function(f) => f.id < db.functions@.len(),
            DefWithBody::Static(s) => s.id < db.statics@.len(),
            DefWithBody::Const(c) => c.id < db.consts@.len(),
            DefWithBody::Variant(v) => v.id < db.variants@.len(),
        }
    }

    pub open spec fn body_spec(self, db: &HirDatabase) -> int
        recommends
            self.valid(db),
    {
        match self {
            DefWithBody::Function(f) => db.functions@[f.id as int].body as int,
            DefWithBody::Static(s) => db.statics@[s.id as int].body as int,
            DefWithBody::Const(c) => db.consts@[c.id as int].body as int,
            DefWithBody::Variant(v) => db.variants@[v.id as int].body as int,
        }
    }

    /// The handle names a record whose body is in the snapshot.
    pub open spec fn has_body(self, db: &HirDatabase) -> bool {
        self.valid(db) && self.body_spec(db) < db.bodies@.len()
    }

    pub fn is_valid(self, db: &HirDatabase) -> (r: bool)
        ensures
            r == self.valid(db),
    {
        match self {
            DefWithBody::Function(f) => (f.id as usize) < db.functions.len(),
            DefWithBody::Static(s) => (s.id as usize) < db.statics.len(),
            DefWithBody::Const(c) => (c.id as usize) < db.consts.len(),
            DefWithBody::Variant(v) => (v.id as usize) < db.variants.len(),
        }
    }

    pub fn has_body_in(self, db: &HirDatabase) -> (r: bool)
        ensures
            r == self.has_body(db),
    {
        self.is_valid(db) && self.body_id(db) < db.bodies.len()
    }

    /// The id of the body this definition owns.
    pub fn body_id(self, db: &HirDatabase) -> (r: usize)
        requires
            self.valid(db),
        ensures
            r == self.body_spec(db),
    {
        match self {
            DefWithBody::Function(f) => db.functions[f.id as usize].body as usize,
            DefWithBody::Static(s) => db.statics[s.id as usize].body as usize,
            DefWithBody::Const(c) => db.consts[c.id as usize].body as usize,
            DefWithBody::Variant(v) => db.variants[v.id as usize].body as usize,
        }
    }
}


impl ModuleDef {
    pub open spec fn def_with_body(self) -> Option<DefWithBody> {
        match self {
            ModuleDef::Function(it) => Some(DefWithBody::Function(it)),
            ModuleDef::Const(it) => Some(DefWithBody::Const(it)),
            ModuleDef::Static(it) => Some(DefWithBody::Static(it)),
            ModuleDef::Variant(it) => Some(DefWithBody::Variant(it)),
            _ => None,
        }
    }

    /// The definition as one that owns a body, when it is one.
    pub fn as_def_with_body(self) -> (r: Option<DefWithBody>)
        ensures
            r == self.def_with_body(),
    {
        match self {
            ModuleDef::Function(it) => Some(DefWithBody::Function(it)),
            ModuleDef::Const(it) => Some(DefWithBody::Const(it)),
            ModuleDef::Static(it) => Some(DefWithBody::Static(it)),
            ModuleDef::Variant(it) => Some(DefWithBody::Variant(it)),
            _ => None,
        }
    }
}


/// The pattern that references to binding `p` resolve to.
pub open spec fn representative_of(b: &Body, p: u32) -> u32 {
    if p < b.pats@.len() {
        match b.pats@[p as int] {
            Pat::Bind { representative, .. } => representative,
            Pat::Other => p,
        }
    } else {
        p
    }
}

/// The patterns among the first `k` of `b` whose representative is `r`.
pub open spec fn bindings_of(b: &Body, r: u32, k: int) -> Seq<u32>
    decreases k,
{
    if k <= 0 || k > b.pats@.len() {
        Seq::empty()
    } else {
        bindings_of(b, r, k - 1) + if b.pats@[k - 1] matches Pat::Bind { representative, .. } && representative
            == r {
            seq![(k - 1) as u32]
        } else {
            Seq::empty()
        }
    }
}

impl Local {
    pub open spec fn body<'a>(self, db: &'a HirDatabase) -> &'a Body {
        &db.bodies@[self.parent.body_spec(db)]
    }

    /// The binding pattern this local stands for.
    pub open spec fn pat(self, db: &HirDatabase) -> Option<Pat> {
        if self.pat_id < self.body(db).pats@.len() {
            Some(self.body(db).pats@[self.pat_id as int])
        } else {
            None
        }
    }

    /// The local that references resolve to: for a binding that is one of
    /// the alternatives of an or-pattern, the one they all share.
    pub fn representative(self, db: &HirDatabase) -> (r: Local)
        requires
            self.parent.has_body(db),
        ensures
            r == (Local { parent: self.parent, pat_id: representative_of(self.body(db), self.pat_id) }),
    {
        let b = &db.bodies[self.parent.body_id(db)];
        let p = if (self.pat_id as usize) < b.pats.len() {
            match b.pats[self.pat_id as usize] {
                Pat::Bind { representative, .. } => representative,
                Pat::Other => self.pat_id,
            }
        } else {
            self.pat_id
        };
        Local { parent: self.parent, pat_id: p }
    }

    /// Every local that shares this one's representative, this one included,
    /// by increasing pattern id.
    pub fn associated_locals(self, db: &HirDatabase) -> (r: Vec<Local>)
        requires
            self.parent.has_body(db),
            db.bodies@[self.parent.body_spec(db)].pats@.len() <= u32::MAX,
        ensures
            r@ == bindings_of(self.body(db), representative_of(self.body(db), self.pat_id), self.body(db).pats@.len() as int)
                .map_values(|p: u32| Local { parent: self.parent, pat_id: p }),
    {
        let rep = self.representative(db).pat_id;
        let b = &db.bodies[self.parent.body_id(db)];
        let mut r: Vec<Local> = Vec::new();
        let mut i: usize = 0;
        while i < b.pats.len()
            invariant
                i <= b.pats@.len() <= u32::MAX,
                *b == *self.body(db),
                rep == representative_of(self.body(db), self.pat_id),
                r@ == bindings_of(b, rep, i as int).map_values(|p: u32| Local { parent: self.parent, pat_id: p }),
            decreases b.pats@.len() - i,
        {
            match b.pats[i] {
                Pat::Bind { representative, .. } => {
                    if representative == rep {
                        r.push(Local { parent: self.parent, pat_id: i as u32 });
                    }
                },
                Pat::Other => {},
            }
            i = i + 1;
            assert(r@ =~= bindings_of(b, rep, i as int).map_values(|p: u32| Local { parent: self.parent, pat_id: p }));
        }
        r
    }

    /// The name the local binds; a missing name (a record that is not a
    /// binding) reads as none.
    pub fn name(self, db: &HirDatabase) -> (r: Option<Name>)
        requires
            self.parent.has_body(db),
        ensures
            r == match self.pat(db) {
                Some(Pat::Bind { name, .. }) => Some(name),
                _ => None,
            },
    {
        let b = &db.bodies[self.parent.body_id(db)];
        if (self.pat_id as usize) < b.pats.len() {
            match b.pats[self.pat_id as usize] {
                Pat::Bind { name, .. } => Some(name),
                Pat::Other => None,
            }
        } else {
            None
        }
    }

    /// The binding mode of the local, when it is a binding.
    pub fn mode(self, db: &HirDatabase) -> (r: Option<BindingMode>)
        requires
            self.parent.has_body(db),
        ensures
            r == match self.pat(db) {
                Some(Pat::Bind { mode, .. }) => Some(mode),
                _ => None,
            },
    {
        let b = &db.bodies[self.parent.body_id(db)];
        if (self.pat_id as usize) < b.pats.len() {
            match b.pats[self.pat_id as usize] {
                Pat::Bind { mode, .. } => Some(mode),
                Pat::Other => None,
            }
        } else {
            None
        }
    }

    /// Bound with `mut`.
    pub fn is_mut(self, db: &HirDatabase) -> (r: bool)
        requires
            self.parent.has_body(db),
        ensures
            r == (self.pat(db) matches Some(Pat::Bind { mode: BindingMode::Mutable, .. })),
    {
        match self.mode(db) {
            Some(BindingMode::Mutable) => true,
            _ => false,
        }
    }

    /// Bound with `ref` or `ref mut`.
    pub fn is_ref(self, db: &HirDatabase) -> (r: bool)
        requires
            self.parent.has_body(db),
        ensures
            r == (self.pat(db) matches Some(Pat::Bind { mode, .. }) && (mode == BindingMode::Ref || mode
                == BindingMode::RefMut)),
    {
        match self.mode(db) {
            Some(BindingMode::Ref) => true,
            Some(BindingMode::RefMut) => true,
            _ => false,
        }
    }

    /// Bound by a parameter of the owning function.
    pub fn is_param(self, db: &HirDatabase) -> (r: bool)
        requires
            self.parent.has_body(db),
        ensures
            r == (self.pat(db) matches Some(Pat::Bind { is_param, .. }) && is_param),
    {
        let b = &db.bodies[self.parent.body_id(db)];
        if (self.pat_id as usize) < b.pats.len() {
            match b.pats[self.pat_id as usize] {
                Pat::Bind { is_param, .. } => is_param,
                Pat::Other => false,
            }
        } else {
            false
        }
    }

    /// The definition whose body binds this local.
    pub fn parent(self) -> (r: DefWithBody)
        ensures
            r == self.parent,
    {
        self.parent
    }
}

/// Taking the representative twice gives the same local as taking it once,
/// for members of or-patterns as for plain bindings.
pub proof fn lemma_representative_idempotent(db: &HirDatabase, l: Local)
    requires
        db.wf(),
        l.parent.has_body(db),
    ensures
        representative_of(l.body(db), representative_of(l.body(db), l.pat_id)) == representative_of(
            l.body(db),
            l.pat_id,
        ),
{
    assert(l.body(db).wf());
}


impl Struct {
    pub open spec fn valid(self, db: &HirDatabase) -> bool {
        self.id < db.structs@.len()
    }

    /// The module this item is declared in.
    pub fn module(self, db: &HirDatabase) -> (r: Module)
        requires
            self.valid(db),
        ensures
            r.id == db.structs@[self.id as int].module,
    {
        Module { id: db.structs[self.id as usize].module }
    }

    pub fn name(self, db: &HirDatabase) -> (r: Name)
        requires
            self.valid(db),
        ensures
            r == db.structs@[self.id as int].name,
    {
        db.structs[self.id as usize].name
    }

    pub fn visibility(self, db: &HirDatabase) -> (r: Visibility)
        requires
            self.valid(db),
        ensures
            r == db.structs@[self.id as int].visibility,
    {
        db.structs[self.id as usize].visibility
    }
}

impl Union {
    pub open spec fn valid(self, db: &HirDatabase) -> bool {
        self.id < db.unions@.len()
    }

    /// The module this item is declared in.
    pub fn module(self, db: &HirDatabase) -> (r: Module)
        requires
            self.valid(db),
        ensures
            r.id == db.unions@[self.id as int].module,
    {
        Module { id: db.unions[self.id as usize].module }
    }

    pub fn name(self, db: &HirDatabase) -> (r: Name)
        requires
            self.valid(db),
        ensures
            r == db.unions@[self.id as int].name,
    {
        db.unions[self.id as usize].name
    }

    pub fn visibility(self, db: &HirDatabase) -> (r: Visibility)
        requires
            self.valid(db),
        ensures
            r == db.unions@[self.id as int].visibility,
    {
        db.unions[self.id as usize].visibility
    }
}

impl Enum {
    pub open spec fn valid(self, db: &HirDatabase) -> bool {
        self.id < db.enums@.len()
    }

    /// The module this item is declared in.
    pub fn module(self, db: &HirDatabase) -> (r: Module)
        requires
            self.valid(db),
        ensures
            r.id == db.enums@[self.id as int].module,
    {
        Module { id: db.enums[self.id as usize].module }
    }

    pub fn name(self, db: &HirDatabase) -> (r: Name)
        requires
            self.valid(db),
        ensures
            r == db.enums@[self.id as int].name,
    {
        db.enums[self.id as usize].name
    }

    pub fn visibility(self, db: &HirDatabase) -> (r: Visibility)
        requires
            self.valid(db),
        ensures
            r == db.enums@[self.id as int].visibility,
    {
        db.enums[self.id as usize].visibility
    }
}

impl Function {
    pub open spec fn valid(self, db: &HirDatabase) -> bool {
        self.id < db.functions@.len()
    }

    /// The module this item is declared in.
    pub fn module(self, db: &HirDatabase) -> (r: Module)
        requires
            self.valid(db),
        ensures
            r.id == db.functions@[self.id as int].module,
    {
        Module { id: db.functions[self.id as usize].module }
    }

    pub fn name(self, db: &HirDatabase) -> (r: Name)
        requires
            self.valid(db),
        ensures
            r == db.functions@[self.id as int].name,
    {
        db.functions[self.id as usize].name
    }

    pub fn visibility(self, db: &HirDatabase) -> (r: Visibility)
        requires
            self.valid(db),
        ensures
            r == db.functions@[self.id as int].visibility,
    {
        db.functions[self.id as usize].visibility
    }
}

impl Const {
    pub open spec fn valid(self, db: &HirDatabase) -> bool {
        self.id < db.consts@.len()
    }

    /// The module this item is declared in.
    pub fn module(self, db: &HirDatabase) -> (r: Module)
        requires
            self.valid(db),
        ensures
            r.id == db.consts@[self.id as int].module,
    {
        Module { id: db.consts[self.id as usize].module }
    }

    pub fn name(self, db: &HirDatabase) -> (r: Option<Name>)
        requires
            self.valid(db),
        ensures
            r == db.consts@[self.id as int].name,
    {
        db.consts[self.id as usize].name
    }

    pub fn visibility(self, db: &HirDatabase) -> (r: Visibility)
        requires
            self.valid(db),
        ensures
            r == db.consts@[self.id as int].visibility,
    {
        db.consts[self.id as usize].visibility
    }
}

impl Static {
    pub open spec fn valid(self, db: &HirDatabase) -> bool {
        self.id < db.statics@.len()
    }

    /// The module this item is declared in.
    pub fn module(self, db: &HirDatabase) -> (r: Module)
        requires
            self.valid(db),
        ensures
            r.id == db.statics@[self.id as int].module,
    {
        Module { id: db.statics[self.id as usize].module }
    }

    pub fn name(self, db: &HirDatabase) -> (r: Name)
        requires
            self.valid(db),
        ensures
            r == db.statics@[self.id as int].name,
    {
        db.statics[self.id as usize].name
    }

    pub fn visibility(self, db: &HirDatabase) -> (r: Visibility)
        requires
            self.valid(db),
        ensures
            r == db.statics@[self.id as int].visibility,
    {
        db.statics[self.id as usize].visibility
    }
}

impl Trait {
    pub open spec fn valid(self, db: &HirDatabase) -> bool {
        self.id < db.traits@.len()
    }

    /// The module this item is declared in.
    pub fn module(self, db: &HirDatabase) -> (r: Module)
        requires
            self.valid(db),
        ensures
            r.id == db.traits@[self.id as int].module,
    {
        Module { id: db.traits[self.id as usize].module }
    }

    pub fn name(self, db: &HirDatabase) -> (r: Name)
        requires
            self.valid(db),
        ensures
            r == db.traits@[self.id as int].name,
    {
        db.traits[self.id as usize].name
    }

    pub fn visibility(self, db: &HirDatabase) -> (r: Visibility)
        requires
            self.valid(db),
        ensures
            r == db.traits@[self.id as int].visibility,
    {
        db.traits[self.id as usize].visibility
    }
}

impl TypeAlias {
    pub open spec fn valid(self, db: &HirDatabase) -> bool {
        self.id < db.type_aliases@.len()
    }

    /// The module this item is declared in.
    pub fn module(self, db: &HirDatabase) -> (r: Module)
        requires
            self.valid(db),
        ensures
            r.id == db.type_aliases@[self.id as int].module,
    {
        Module { id: db.type_aliases[self.id as usize].module }
    }

    pub fn name(self, db: &HirDatabase) -> (r: Name)
        requires
            self.valid(db),
        ensures
            r == db.type_aliases@[self.id as int].name,
    {
        db.type_aliases[self.id as usize].name
    }

    pub fn visibility(self, db: &HirDatabase) -> (r: Visibility)
        requires
            self.valid(db),
        ensures
            r == db.type_aliases@[self.id as int].visibility,
    {
        db.type_aliases[self.id as usize].visibility
    }
}

impl Macro {
    pub open spec fn valid(self, db: &HirDatabase) -> bool {
        self.id < db.macros@.len()
    }

    /// The module this item is declared in.
    pub fn module(self, db: &HirDatabase) -> (r: Module)
        requires
            self.valid(db),
        ensures
            r.id == db.macros@[self.id as int].module,
    {
        Module { id: db.macros[self.id as usize].module }
    }

    pub fn name(self, db: &HirDatabase) -> (r: Name)
        requires
            self.valid(db),
        ensures
            r == db.macros@[self.id as int].name,
    {
        db.macros[self.id as usize].name
    }

    pub fn visibility(self, db: &HirDatabase) -> (r: Visibility)
        requires
            self.valid(db),
        ensures
            r == db.macros@[self.id as int].visibility,
    {
        db.macros[self.id as usize].visibility
    }
}


impl Enum {
    /// The variants of this enum, in declaration order.
    pub fn variants(self, db: &HirDatabase) -> (r: Vec<Variant>)
        requires
            self.valid(db),
        ensures
            r@ == db.enums@[self.id as int].variants@.map_values(|v: u32| Variant { id: v }),
    {
        let vs = &db.enums[self.id as usize].variants;
        let mut r: Vec<Variant> = Vec::new();
        let mut i: usize = 0;
        while i < vs.len()
            invariant
                i <= vs@.len(),
                r@ == vs@.take(i as int).map_values(|v: u32| Variant { id: v }),
            decreases vs@.len() - i,
        {
            r.push(Variant { id: vs[i] });
            i = i + 1;
            assert(r@ =~= vs@.take(i as int).map_values(|v: u32| Variant { id: v }));
        }
        assert(vs@.take(i as int) =~= vs@);
        r
    }

    /// The enum type with its own generic parameters as placeholders.
    pub fn ty(self, db: &HirDatabase) -> (r: Type)
        requires
            self.valid(db),
        ensures
            r == (Type { ty: db.enums@[self.id as int].ty, env: db.enums@[self.id as int].env }),
    {
        Type { ty: db.enums[self.id as usize].ty, env: db.enums[self.id as usize].env }
    }
}

impl Variant {
    pub open spec fn valid(self, db: &HirDatabase) -> bool {
        self.id < db.variants@.len() && db.variants@[self.id as int].parent < db.enums@.len()
    }

    pub fn parent_enum(self, db: &HirDatabase) -> (r: Enum)
        requires
            self.valid(db),
        ensures
            r.id == db.variants@[self.id as int].parent,
    {
        Enum { id: db.variants[self.id as usize].parent }
    }

    pub fn name(self, db: &HirDatabase) -> (r: Name)
        requires
            self.valid(db),
        ensures
            r == db.variants@[self.id as int].name,
    {
        db.variants[self.id as usize].name
    }

    /// The module of the enum this variant belongs to.
    pub fn module(self, db: &HirDatabase) -> (r: Module)
        requires
            self.valid(db),
        ensures
            r.id == db.enums@[db.variants@[self.id as int].parent as int].module,
    {
        self.parent_enum(db).module(db)
    }

    /// A variant is as visible as its enum.
    pub fn visibility(self, db: &HirDatabase) -> (r: Visibility)
        requires
            self.valid(db),
        ensures
            r == db.enums@[db.variants@[self.id as int].parent as int].visibility,
    {
        self.parent_enum(db).visibility(db)
    }
}

impl VariantDef {
    /// The number of fields the struct, union or variant declares; none for a
    /// handle the snapshot does not hold.
    pub open spec fn field_count(self, db: &HirDatabase) -> Option<nat> {
        match self {
            VariantDef::Struct(s) => if s.id < db.structs@.len() { Some(db.structs@[s.id as int].fields@.len()) } else { None },
            VariantDef::Union(u) => if u.id < db.unions@.len() { Some(db.unions@[u.id as int].fields@.len()) } else { None },
            VariantDef::Variant(v) => if v.id < db.variants@.len() { Some(db.variants@[v.id as int].fields@.len()) } else { None },
        }
    }

    /// The fields, in declaration order.
    pub fn fields(self, db: &HirDatabase) -> (r: Vec<Field>)
        requires
            self.field_count(db) is Some,
            self.field_count(db)->Some_0 <= u32::MAX,
        ensures
            r@.len() == self.field_count(db)->Some_0,
            forall|i: int| 0 <= i < r@.len() ==> #[trigger] r@[i] == (Field { parent: self, index: i as u32 }),
    {
        let n = match self {
            VariantDef::Struct(s) => db.structs[s.id as usize].fields.len(),
            VariantDef::Union(u) => db.unions[u.id as usize].fields.len(),
            VariantDef::Variant(v) => db.variants[v.id as usize].fields.len(),
        };
        let mut r: Vec<Field> = Vec::new();
        let mut i: usize = 0;
        while i < n
            invariant
                i <= n <= u32::MAX,
                r@.len() == i,
                forall|j: int| 0 <= j < i ==> #[trigger] r@[j] == (Field { parent: self, index: j as u32 }),
            decreases n - i,
        {
            r.push(Field { parent: self, index: i as u32 });
            i = i + 1;
        }
        r
    }
}

impl Adt {
    pub open spec fn valid(self, db: &HirDatabase) -> bool {
        match self {
            Adt::Struct(s) => s.valid(db),
            Adt::Union(u) => u.valid(db),
            Adt::Enum(e) => e.valid(db),
        }
    }

    pub fn module(self, db: &HirDatabase) -> (r: Module)
        requires
            self.valid(db),
        ensures
            Some(r.id) == crate::resolve::adt_module(db, self),
    {
        match self {
            Adt::Struct(s) => s.module(db),
            Adt::Union(u) => u.module(db),
            Adt::Enum(e) => e.module(db),
        }
    }

    pub fn name(self, db: &HirDatabase) -> (r: Name)
        requires
            self.valid(db),
        ensures
            r == match self {
                Adt::Struct(s) => db.structs@[s.id as int].name,
                Adt::Union(u) => db.unions@[u.id as int].name,
                Adt::Enum(e) => db.enums@[e.id as int].name,
            },
    {
        match self {
            Adt::Struct(s) => s.name(db),
            Adt::Union(u) => u.name(db),
            Adt::Enum(e) => e.name(db),
        }
    }

    /// The type with the ADT's own generic parameters as placeholders.
    pub fn ty(self, db: &HirDatabase) -> (r: Type)
        requires
            self.valid(db),
        ensures
            r == match self {
                Adt::Struct(s) => Type { ty: db.structs@[s.id as int].ty, env: db.structs@[s.id as int].env },
                Adt::Union(u) => Type { ty: db.unions@[u.id as int].ty, env: db.unions@[u.id as int].env },
                Adt::Enum(e) => Type { ty: db.enums@[e.id as int].ty, env: db.enums@[e.id as int].env },
            },
    {
        match self {
            Adt::Struct(s) => Type { ty: db.structs[s.id as usize].ty, env: db.structs[s.id as usize].env },
            Adt::Union(u) => Type { ty: db.unions[u.id as usize].ty, env: db.unions[u.id as usize].env },
            Adt::Enum(e) => e.ty(db),
        }
    }

    pub fn as_enum(self) -> (r: Option<Enum>)
        ensures
            r == match self {
                Adt::Enum(e) => Some(e),
                _ => None,
            },
    {
        match self {
            Adt::Enum(e) => Some(e),
            _ => None,
        }
    }
}

impl Function {
    pub fn has_self_param(self, db: &HirDatabase) -> (r: bool)
        requires
            self.valid(db),
        ensures
            r == db.functions@[self.id as int].self_param is Some,
    {
        db.functions[self.id as usize].self_param.is_some()
    }

    pub fn self_param(self, db: &HirDatabase) -> (r: Option<SelfParam>)
        requires
            self.valid(db),
        ensures
            r == if db.functions@[self.id as int].self_param is Some {
                Some(SelfParam { func: self })
            } else {
                None
            },
    {
        if db.functions[self.id as usize].self_param.is_some() {
            Some(SelfParam { func: self })
        } else {
            None
        }
    }

    /// The declared return type, in the function's environment.
    pub fn ret_type(self, db: &HirDatabase) -> (r: Type)
        requires
            self.valid(db),
        ensures
            r == (Type { ty: db.functions@[self.id as int].ret_type, env: db.functions@[self.id as int].env }),
    {
        Type { ty: db.functions[self.id as usize].ret_type, env: db.functions[self.id as usize].env }
    }

    /// All parameters, `self` included; a parameter's index counts `self`.
    pub fn assoc_fn_params(self, db: &HirDatabase) -> (r: Vec<Param>)
        requires
            self.valid(db),
            db.functions@[self.id as int].params@.len() <= u32::MAX,
        ensures
            r@.len() == db.functions@[self.id as int].params@.len(),
            forall|i: int| 0 <= i < r@.len() ==> #[trigger] r@[i] == (Param {
                func: self,
                idx: i as u32,
                ty: Type { ty: db.functions@[self.id as int].params@[i], env: db.functions@[self.id as int].env },
            }),
    {
        self.params_from(db, 0)
    }

    /// The parameters after `self`; all of them when there is no `self`.
    pub fn params_without_self(self, db: &HirDatabase) -> (r: Vec<Param>)
        requires
            self.valid(db),
            db.functions@[self.id as int].params@.len() <= u32::MAX,
        ensures
            ({
                let data = db.functions@[self.id as int];
                let skip: int = if data.self_param is Some && data.params@.len() > 0 { 1 } else { 0 };
                &&& r@.len() == data.params@.len() - skip
                &&& forall|i: int| 0 <= i < r@.len() ==> #[trigger] r@[i] == (Param {
                    func: self,
                    idx: (i + skip) as u32,
                    ty: Type { ty: data.params@[i + skip], env: data.env },
                })
            }),
    {
        let data = &db.functions[self.id as usize];
        let skip: usize = if data.self_param.is_some() && data.params.len() > 0 { 1 } else { 0 };
        self.params_from(db, skip)
    }

    fn params_from(self, db: &HirDatabase, from: usize) -> (r: Vec<Param>)
        requires
            self.valid(db),
            db.functions@[self.id as int].params@.len() <= u32::MAX,
            from <= db.functions@[self.id as int].params@.len(),
        ensures
            r@.len() == db.functions@[self.id as int].params@.len() - from,
            forall|i: int| 0 <= i < r@.len() ==> #[trigger] r@[i] == (Param {
                func: self,
                idx: (i + from) as u32,
                ty: Type { ty: db.functions@[self.id as int].params@[i + from], env: db.functions@[self.id as int].env },
            }),
    {
        let data = &db.functions[self.id as usize];
        let mut r: Vec<Param> = Vec::new();
        let mut i: usize = from;
        while i < data.params.len()
            invariant
                from <= i <= data.params@.len() <= u32::MAX,
                *data == db.functions@[self.id as int],
                r@.len() == i - from,
                forall|j: int| 0 <= j < r@.len() ==> #[trigger] r@[j] == (Param {
                    func: self,
                    idx: (j + from) as u32,
                    ty: Type { ty: data.params@[j + from], env: data.env },
                }),
            decreases data.params@.len() - i,
        {
            r.push(Param { func: self, idx: i as u32, ty: Type { ty: data.params[i], env: data.env } });
            i = i + 1;
        }
        r
    }

    /// For a method, the parameters after `self`; none for a function
    /// without a `self` parameter.
    pub fn method_params(self, db: &HirDatabase) -> (r: Option<Vec<Param>>)
        requires
            self.valid(db),
            db.functions@[self.id as int].params@.len() <= u32::MAX,
        ensures
            db.functions@[self.id as int].self_param is None ==> r is None,
            db.functions@[self.id as int].self_param is Some ==> (r matches Some(ps) && ({
                let data = db.functions@[self.id as int];
                let skip: int = if data.params@.len() > 0 { 1 } else { 0 };
                &&& ps@.len() == data.params@.len() - skip
                &&& forall|i: int| 0 <= i < ps@.len() ==> #[trigger] ps@[i] == (Param {
                    func: self,
                    idx: (i + skip) as u32,
                    ty: Type { ty: data.params@[i + skip], env: data.env },
                })
            })),
    {
        if db.functions[self.id as usize].self_param.is_none() {
            return None;
        }
        Some(self.params_without_self(db))
    }

    pub fn is_const(self, db: &HirDatabase) -> (r: bool)
        requires
            self.valid(db),
        ensures
            r == db.functions@[self.id as int].is_const,
    {
        db.functions[self.id as usize].is_const
    }

    pub fn is_async(self, db: &HirDatabase) -> (r: bool)
        requires
            self.valid(db),
        ensures
            r == db.functions@[self.id as int].is_async,
    {
        db.functions[self.id as usize].is_async
    }

    pub fn is_unsafe_to_call(self, db: &HirDatabase) -> (r: bool)
        requires
            self.valid(db),
        ensures
            r == db.functions@[self.id as int].is_unsafe,
    {
        db.functions[self.id as usize].is_unsafe
    }
}

impl SelfParam {
    /// How the method takes its receiver.
    pub fn access(self, db: &HirDatabase) -> (r: Access)
        requires
            self.func.valid(db),
            db.functions@[self.func.id as int].self_param is Some,
        ensures
            Some(r) == db.functions@[self.func.id as int].self_param,
    {
        match db.functions[self.func.id as usize].self_param {
            Some(a) => a,
            None => vstd::pervasive::unreached(),
        }
    }

    /// How the receiver reads in source: `self`, `&self` or `&mut self`.
    pub fn display(self, db: &HirDatabase) -> (r: &'static str)
        requires
            self.func.valid(db),
            db.functions@[self.func.id as int].self_param is Some,
    {
        match self.access(db) {
            Access::Shared => "&self",
            Access::Exclusive => "&mut self",
            Access::Owned => "self",
        }
    }
}

impl Static {
    pub fn is_mut(self, db: &HirDatabase) -> (r: bool)
        requires
            self.valid(db),
        ensures
            r == db.statics@[self.id as int].is_mut,
    {
        db.statics[self.id as usize].is_mut
    }
}

impl Trait {
    /// The associated items declared in the trait, in order.
    pub fn items(self, db: &HirDatabase) -> (r: Vec<AssocItem>)
        requires
            self.valid(db),
        ensures
            r@ == db.traits@[self.id as int].items@,
    {
        copy_items(&db.traits[self.id as usize].items)
    }

    pub fn is_auto(self, db: &HirDatabase) -> (r: bool)
        requires
            self.valid(db),
        ensures
            r == db.traits@[self.id as int].is_auto,
    {
        db.traits[self.id as usize].is_auto
    }

    pub fn is_unsafe(self, db: &HirDatabase) -> (r: bool)
        requires
            self.valid(db),
        ensures
            r == db.traits@[self.id as int].is_unsafe,
    {
        db.traits[self.id as usize].is_unsafe
    }
}

fn copy_items(v: &Vec<AssocItem>) -> (r: Vec<AssocItem>)
    ensures
        r@ == v@,
{
    let mut r: Vec<AssocItem> = Vec::new();
    let mut i: usize = 0;
    while i < v.len()
        invariant
            i <= v@.len(),
            r@ == v@.take(i as int),
        decreases v@.len() - i,
    {
        r.push(v[i]);
        i = i + 1;
        assert(r@ =~= v@.take(i as int));
    }
    assert(v@.take(i as int) =~= v@);
    r
}

impl Impl {
    pub open spec fn valid(self, db: &HirDatabase) -> bool {
        self.id < db.impls@.len()
    }

    pub fn trait_(self, db: &HirDatabase) -> (r: Option<Trait>)
        requires
            self.valid(db),
        ensures
            r == db.impls@[self.id as int].trait_,
    {
        db.impls[self.id as usize].trait_
    }

    /// The Self type, in the impl's environment.
    pub fn self_ty(self, db: &HirDatabase) -> (r: Type)
        requires
            self.valid(db),
        ensures
            r == (Type { ty: db.impls@[self.id as int].self_ty, env: db.impls@[self.id as int].env }),
    {
        Type { ty: db.impls[self.id as usize].self_ty, env: db.impls[self.id as usize].env }
    }

    pub fn items(self, db: &HirDatabase) -> (r: Vec<AssocItem>)
        requires
            self.valid(db),
        ensures
            r@ == db.impls@[self.id as int].items@,
    {
        copy_items(&db.impls[self.id as usize].items)
    }

    /// A negative impl (`impl !Trait for T`).
    pub fn is_negative(self, db: &HirDatabase) -> (r: bool)
        requires
            self.valid(db),
        ensures
            r == db.impls@[self.id as int].is_negative,
    {
        db.impls[self.id as usize].is_negative
    }

    pub fn module(self, db: &HirDatabase) -> (r: Module)
        requires
            self.valid(db),
        ensures
            r.id == db.impls@[self.id as int].module,
    {
        Module { id: db.impls[self.id as usize].module }
    }
}

/// The kind of macro an expander makes.
pub open spec fn kind_of(e: MacroExpander) -> MacroKind {
    match e {
        MacroExpander::Declarative => MacroKind::Declarative,
        MacroExpander::BuiltIn | MacroExpander::BuiltInEager => MacroKind::BuiltIn,
        MacroExpander::BuiltInAttr => MacroKind::Attr,
        MacroExpander::BuiltInDerive => MacroKind::Derive,
        MacroExpander::ProcMacro(ProcMacroKind::CustomDerive) => MacroKind::Derive,
        MacroExpander::ProcMacro(ProcMacroKind::FuncLike) => MacroKind::ProcMacro,
        MacroExpander::ProcMacro(ProcMacroKind::Attr) => MacroKind::Attr,
    }
}

impl Macro {
    pub fn kind(self, db: &HirDatabase) -> (r: MacroKind)
        requires
            self.valid(db),
        ensures
            r == kind_of(db.macros@[self.id as int].expander),
    {
        match db.macros[self.id as usize].expander {
            MacroExpander::Declarative => MacroKind::Declarative,
            MacroExpander::BuiltIn | MacroExpander::BuiltInEager => MacroKind::BuiltIn,
            MacroExpander::BuiltInAttr => MacroKind::Attr,
            MacroExpander::BuiltInDerive => MacroKind::Derive,
            MacroExpander::ProcMacro(ProcMacroKind::CustomDerive) => MacroKind::Derive,
            MacroExpander::ProcMacro(ProcMacroKind::FuncLike) => MacroKind::ProcMacro,
            MacroExpander::ProcMacro(ProcMacroKind::Attr) => MacroKind::Attr,
        }
    }

    /// Invoked as `name!(..)`.
    pub fn is_fn_like(self, db: &HirDatabase) -> (r: bool)
        requires
            self.valid(db),
        ensures
            r == match kind_of(db.macros@[self.id as int].expander) {
                MacroKind::Declarative | MacroKind::BuiltIn | MacroKind::ProcMacro => true,
                MacroKind::Attr | MacroKind::Derive => false,
            },
    {
        match self.kind(db) {
            MacroKind::Declarative | MacroKind::BuiltIn | MacroKind::ProcMacro => true,
            MacroKind::Attr | MacroKind::Derive => false,
        }
    }

    pub fn is_attr(self, db: &HirDatabase) -> (r: bool)
        requires
            self.valid(db),
        ensures
            r == (kind_of(db.macros@[self.id as int].expander) == MacroKind::Attr),
    {
        self.kind(db) == MacroKind::Attr
    }

    pub fn is_derive(self, db: &HirDatabase) -> (r: bool)
        requires
            self.valid(db),
        ensures
            r == (kind_of(db.macros@[self.id as int].expander) == MacroKind::Derive),
    {
        self.kind(db) == MacroKind::Derive
    }

    /// A derive built into the compiler, not a procedural one.
    pub fn is_builtin_derive(self, db: &HirDatabase) -> (r: bool)
        requires
            self.valid(db),
        ensures
            r == (db.macros@[self.id as int].expander == MacroExpander::BuiltInDerive),
    {
        db.macros[self.id as usize].expander == MacroExpander::BuiltInDerive
    }

    pub fn is_macro_export(self, db: &HirDatabase) -> (r: bool)
        requires
            self.valid(db),
        ensures
            r == db.macros@[self.id as int].macro_export,
    {
        db.macros[self.id as usize].macro_export
    }
}

impl AssocItem {
    /// Where the item is declared, when that is a trait or an impl.
    pub open spec fn container_spec(self, db: &HirDatabase) -> Option<AssocItemContainer> {
        let c = match self {
            AssocItem::Function(f) => if f.id < db.functions@.len() { Some(db.functions@[f.id as int].container) } else { None },
            AssocItem::Const(c) => if c.id < db.consts@.len() { Some(db.consts@[c.id as int].container) } else { None },
            AssocItem::TypeAlias(t) => if t.id < db.type_aliases@.len() { Some(db.type_aliases@[t.id as int].container) } else { None },
        };
        match c {
            Some(ItemContainer::Trait(t)) => Some(AssocItemContainer::Trait(Trait { id: t })),
            Some(ItemContainer::Impl(i)) => Some(AssocItemContainer::Impl(Impl { id: i })),
            _ => None,
        }
    }

    /// The trait or impl holding this item. An associated item always has
    /// one; asking for an item declared in a module is a caller error.
    pub fn container(self, db: &HirDatabase) -> (r: AssocItemContainer)
        requires
            self.container_spec(db) is Some,
        ensures
            Some(r) == self.container_spec(db),
    {
        let c = match self {
            AssocItem::Function(f) => db.functions[f.id as usize].container,
            AssocItem::Const(c) => db.consts[c.id as usize].container,
            AssocItem::TypeAlias(t) => db.type_aliases[t.id as usize].container,
        };
        match c {
            ItemContainer::Trait(t) => AssocItemContainer::Trait(Trait { id: t }),
            ItemContainer::Impl(i) => AssocItemContainer::Impl(Impl { id: i }),
            ItemContainer::Module => vstd::pervasive::unreached(),
        }
    }

    /// The trait that declares this item, when it is declared in one.
    pub fn containing_trait(self, db: &HirDatabase) -> (r: Option<Trait>)
        requires
            self.container_spec(db) is Some,
        ensures
            r == match self.container_spec(db) {
                Some(AssocItemContainer::Trait(t)) => Some(t),
                _ => None,
            },
    {
        match self.container(db) {
            AssocItemContainer::Trait(t) => Some(t),
            AssocItemContainer::Impl(_) => None,
        }
    }

    /// The trait that the impl holding this item implements, if any.
    pub fn containing_trait_impl(self, db: &HirDatabase) -> (r: Option<Trait>)
        requires
            self.container_spec(db) is Some,
        ensures
            r == match self.container_spec(db) {
                Some(AssocItemContainer::Impl(i)) => if i.id < db.impls@.len() { db.impls@[i.id as int].trait_ } else { None },
                _ => None,
            },
    {
        match self.container(db) {
            AssocItemContainer::Impl(i) => if (i.id as usize) < db.impls.len() { db.impls[i.id as usize].trait_ } else { None },
            AssocItemContainer::Trait(_) => None,
        }
    }
}

impl ModuleDef {
    /// The name of the definition; none for a crate root or an unnamed const.
    pub fn name(self, db: &HirDatabase) -> (r: Option<Name>)
        requires
            self.valid(db),
        ensures
            r == self.name_spec(db),
    {
        match self {
            ModuleDef::Module(m) => db.modules[m.id as usize].name,
            ModuleDef::Function(f) => Some(f.name(db)),
            ModuleDef::Adt(a) => Some(a.name(db)),
            ModuleDef::Variant(v) => Some(v.name(db)),
            ModuleDef::Const(c) => c.name(db),
            ModuleDef::Static(s) => Some(s.name(db)),
            ModuleDef::Trait(t) => Some(t.name(db)),
            ModuleDef::TypeAlias(t) => Some(t.name(db)),
            ModuleDef::Macro(m) => Some(m.name(db)),
        }
    }

    pub open spec fn valid(self, db: &HirDatabase) -> bool {
        match self {
            ModuleDef::Module(m) => m.id < db.modules@.len(),
            ModuleDef::Function(f) => f.valid(db),
            ModuleDef::Adt(a) => a.valid(db),
            ModuleDef::Variant(v) => v.valid(db),
            ModuleDef::Const(c) => c.valid(db),
            ModuleDef::Static(s) => s.valid(db),
            ModuleDef::Trait(t) => t.valid(db),
            ModuleDef::TypeAlias(t) => t.valid(db),
            ModuleDef::Macro(m) => m.valid(db),
        }
    }

    pub open spec fn name_spec(self, db: &HirDatabase) -> Option<Name> {
        match self {
            ModuleDef::Module(m) => db.modules@[m.id as int].name,
            ModuleDef::Function(f) => Some(db.functions@[f.id as int].name),
            ModuleDef::Adt(Adt::Struct(s)) => Some(db.structs@[s.id as int].name),
            ModuleDef::Adt(Adt::Union(u)) => Some(db.unions@[u.id as int].name),
            ModuleDef::Adt(Adt::Enum(e)) => Some(db.enums@[e.id as int].name),
            ModuleDef::Variant(v) => Some(db.variants@[v.id as int].name),
            ModuleDef::Const(c) => db.consts@[c.id as int].name,
            ModuleDef::Static(s) => Some(db.statics@[s.id as int].name),
            ModuleDef::Trait(t) => Some(db.traits@[t.id as int].name),
            ModuleDef::TypeAlias(t) => Some(db.type_aliases@[t.id as int].name),
            ModuleDef::Macro(m) => Some(db.macros@[m.id as int].name),
        }
    }

    /// The module the definition is declared in; none for a crate root.
    pub fn module(self, db: &HirDatabase) -> (r: Option<Module>)
        requires
            self.valid(db),
        ensures
            match r {
                Some(m) => crate::module_tree::def_module(db, self) == Some(m.id),
                None => crate::module_tree::def_module(db, self) is None,
            },
    {
        match self {
            ModuleDef::Module(m) => match m.parent(db) {
                Some(p) => Some(p),
                None => None,
            },
            ModuleDef::Function(f) => Some(f.module(db)),
            ModuleDef::Adt(a) => Some(a.module(db)),
            ModuleDef::Variant(v) => Some(v.module(db)),
            ModuleDef::Const(c) => Some(c.module(db)),
            ModuleDef::Static(s) => Some(s.module(db)),
            ModuleDef::Trait(t) => Some(t.module(db)),
            ModuleDef::TypeAlias(t) => Some(t.module(db)),
            ModuleDef::Macro(m) => Some(m.module(db)),
        }
    }
}


/// The names of `path[..k]` from the last to the first, skipping unnamed
/// modules; for a path to the root, the names from the root downwards.
pub open spec fn names_rootward(db: &HirDatabase, path: Seq<Module>, k: int) -> Seq<Name>
    decreases k,
{
    if k <= 0 || k > path.len() {
        Seq::empty()
    } else {
        let m = path[k - 1];
        (if m.id < db.modules@.len() && db.modules@[m.id as int].name is Some {
            seq![db.modules@[m.id as int].name->Some_0]
        } else {
            Seq::empty()
        }) + names_rootward(db, path, k - 1)
    }
}

impl ModuleDef {
    pub fn visibility(self, db: &HirDatabase) -> (r: Visibility)
        requires
            self.valid(db),
        ensures
            r == match self {
                ModuleDef::Module(m) => db.modules@[m.id as int].visibility,
                ModuleDef::Function(f) => db.functions@[f.id as int].visibility,
                ModuleDef::Adt(Adt::Struct(s)) => db.structs@[s.id as int].visibility,
                ModuleDef::Adt(Adt::Union(u)) => db.unions@[u.id as int].visibility,
                ModuleDef::Adt(Adt::Enum(e)) => db.enums@[e.id as int].visibility,
                ModuleDef::Variant(v) => db.enums@[db.variants@[v.id as int].parent as int].visibility,
                ModuleDef::Const(c) => db.consts@[c.id as int].visibility,
                ModuleDef::Static(s) => db.statics@[s.id as int].visibility,
                ModuleDef::Trait(t) => db.traits@[t.id as int].visibility,
                ModuleDef::TypeAlias(t) => db.type_aliases@[t.id as int].visibility,
                ModuleDef::Macro(m) => db.macros@[m.id as int].visibility,
            },
    {
        match self {
            ModuleDef::Module(m) => db.modules[m.id as usize].visibility,
            ModuleDef::Function(f) => f.visibility(db),
            ModuleDef::Adt(Adt::Struct(s)) => s.visibility(db),
            ModuleDef::Adt(Adt::Union(u)) => u.visibility(db),
            ModuleDef::Adt(Adt::Enum(e)) => e.visibility(db),
            ModuleDef::Variant(v) => v.visibility(db),
            ModuleDef::Const(c) => c.visibility(db),
            ModuleDef::Static(s) => s.visibility(db),
            ModuleDef::Trait(t) => t.visibility(db),
            ModuleDef::TypeAlias(t) => t.visibility(db),
            ModuleDef::Macro(m) => m.visibility(db),
        }
    }

    /// The segments of the path that names this definition from its crate
    /// root: the names of the enclosing modules, then its own name. None for
    /// an unnamed definition or a crate root.
    pub fn canonical_path(self, db: &HirDatabase) -> (r: Option<Vec<Name>>)
        requires
            self.valid(db),
        ensures
            match (self.name_spec(db), crate::module_tree::def_module(db, self)) {
                (Some(n), Some(m)) => r matches Some(v) && v@ == names_rootward(
                    db,
                    crate::module_tree::path_spec(db, m),
                    crate::module_tree::path_spec(db, m).len() as int,
                ).push(n),
                _ => r is None,
            },
    {
        let n = match self.name(db) {
            Some(n) => n,
            None => return None,
        };
        let m = match self.module(db) {
            Some(m) => m,
            None => return None,
        };
        let path = m.path_to_root(db);
        let mut segments: Vec<Name> = Vec::new();
        let mut i: usize = 0;
        while i < path.len()
            invariant
                i <= path@.len(),
                segments@ == names_rootward(db, path@, i as int),
            decreases path@.len() - i,
        {
            let p = path[i];
            if (p.id as usize) < db.modules.len() {
                match db.modules[p.id as usize].name {
                    Some(name) => {
                        let ghost s0 = segments@;
                        segments.insert(0, name);
                        assert(segments@ =~= seq![name] + s0);
                    },
                    None => {},
                }
            }
            i = i + 1;
            assert(segments@ =~= names_rootward(db, path@, i as int));
        }
        segments.push(n);
        Some(segments)
    }
}

impl Field {
    pub open spec fn data_len(self, db: &HirDatabase) -> Option<nat> {
        self.parent.field_count(db)
    }

    /// The field's declared name.
    pub fn name(self, db: &HirDatabase) -> (r: Name)
        requires
            self.data_len(db) matches Some(n) && self.index < n,
        ensures
            r == match self.parent {
                VariantDef::Struct(s) => db.structs@[s.id as int].fields@[self.index as int].name,
                VariantDef::Union(u) => db.unions@[u.id as int].fields@[self.index as int].name,
                VariantDef::Variant(v) => db.variants@[v.id as int].fields@[self.index as int].name,
            },
    {
        match self.parent {
            VariantDef::Struct(s) => db.structs[s.id as usize].fields[self.index as usize].name,
            VariantDef::Union(u) => db.unions[u.id as usize].fields[self.index as usize].name,
            VariantDef::Variant(v) => db.variants[v.id as usize].fields[self.index as usize].name,
        }
    }

    pub fn parent_def(self) -> (r: VariantDef)
        ensures
            r == self.parent,
    {
        self.parent
    }
}

impl crate::entity::Crate {
    /// The modules of this crate, by increasing id.
    pub fn modules(self, db: &HirDatabase) -> (r: Vec<Module>)
        requires
            db.modules@.len() <= u32::MAX,
        ensures
            forall|i: int, j: int| 0 <= i < j < r@.len() ==> r@[i].id < r@[j].id,
            forall|i: int| 0 <= i < r@.len() ==> #[trigger] r@[i].id < db.modules@.len() && db.modules@[r@[i].id as int].krate == self.id,
            forall|m: int| 0 <= m < db.modules@.len() && #[trigger] db.modules@[m].krate == self.id ==> r@.contains(Module { id: m as u32 }),
    {
        let mut r: Vec<Module> = Vec::new();
        let mut m: usize = 0;
        while m < db.modules.len()
            invariant
                m <= db.modules@.len() <= u32::MAX,
                forall|i: int, j: int| 0 <= i < j < r@.len() ==> r@[i].id < r@[j].id,
                forall|i: int| 0 <= i < r@.len() ==> #[trigger] r@[i].id < m && db.modules@[r@[i].id as int].krate == self.id,
                forall|x: int| 0 <= x < m && #[trigger] db.modules@[x].krate == self.id ==> r@.contains(Module { id: x as u32 }),
            decreases db.modules@.len() - m,
        {
            let ghost r0 = r@;
            if db.modules[m].krate == self.id {
                r.push(Module { id: m as u32 });
            }
            assert forall|x: int| 0 <= x < m + 1 && #[trigger] db.modules@[x].krate == self.id implies r@.contains(Module { id: x as u32 }) by {
                if x < m {
                    let w = choose|w: int| 0 <= w < r0.len() && r0[w] == Module { id: x as u32 };
                    assert(r@[w] == r0[w]);
                } else {
                    assert(r@[r@.len() - 1] == Module { id: x as u32 });
                }
            }
            m = m + 1;
        }
        r
    }
}


impl AssocItem {
    pub fn name(self, db: &HirDatabase) -> (r: Option<Name>)
        ensures
            r == crate::resolve::assoc_item_name(db, self),
    {
        crate::resolve::assoc_item_name_of(db, self)
    }

    /// The module the item is declared in, through its trait or impl.
    pub fn module(self, db: &HirDatabase) -> (r: Module)
        requires
            match self {
                AssocItem::Function(f) => f.valid(db),
                AssocItem::Const(c) => c.valid(db),
                AssocItem::TypeAlias(t) => t.valid(db),
            },
        ensures
            r.id == match self {
                AssocItem::Function(f) => db.functions@[f.id as int].module,
                AssocItem::Const(c) => db.consts@[c.id as int].module,
                AssocItem::TypeAlias(t) => db.type_aliases@[t.id as int].module,
            },
    {
        match self {
            AssocItem::Function(f) => f.module(db),
            AssocItem::Const(c) => c.module(db),
            AssocItem::TypeAlias(t) => t.module(db),
        }
    }

    /// The trait the item belongs to: the one declaring it, or the one its impl implements.
    pub fn containing_trait_or_trait_impl(self, db: &HirDatabase) -> (r: Option<Trait>)
        requires
            self.container_spec(db) is Some,
        ensures
            r == match self.container_spec(db) {
                Some(AssocItemContainer::Trait(t)) => Some(t),
                Some(AssocItemContainer::Impl(i)) => if i.id < db.impls@.len() { db.impls@[i.id as int].trait_ } else { None },
                None => None,
            },
    {
        match self.containing_trait(db) {
            Some(t) => Some(t),
            None => self.containing_trait_impl(db),
        }
    }
}

impl ModuleDef {
    /// The definition as an associated item, when it is declared in a trait or an impl.
    pub fn as_assoc_item(self, db: &HirDatabase) -> (r: Option<AssocItem>)
        ensures
            r == match self {
                ModuleDef::Function(f) => if AssocItem::Function(f).container_spec(db) is Some { Some(AssocItem::Function(f)) } else { None },
                ModuleDef::Const(c) => if AssocItem::Const(c).container_spec(db) is Some { Some(AssocItem::Const(c)) } else { None },
                ModuleDef::TypeAlias(t) => if AssocItem::TypeAlias(t).container_spec(db) is Some { Some(AssocItem::TypeAlias(t)) } else { None },
                _ => None,
            },
    {
        let item = match self {
            ModuleDef::Function(f) => AssocItem::Function(f),
            ModuleDef::Const(c) => AssocItem::Const(c),
            ModuleDef::TypeAlias(t) => AssocItem::TypeAlias(t),
            _ => return None,
        };
        let c = match item {
            AssocItem::Function(f) => if (f.id as usize) < db.functions.len() { Some(db.functions[f.id as usize].container) } else { None },
            AssocItem::Const(c) => if (c.id as usize) < db.consts.len() { Some(db.consts[c.id as usize].container) } else { None },
            AssocItem::TypeAlias(t) => if (t.id as usize) < db.type_aliases.len() { Some(db.type_aliases[t.id as usize].container) } else { None },
        };
        match c {
            Some(ItemContainer::Trait(_)) | Some(ItemContainer::Impl(_)) => Some(item),
            _ => None,
        }
    }
}

impl Module {
    pub fn visibility(self, db: &HirDatabase) -> (r: Visibility)
        requires
            self.valid(db),
        ensures
            r == db.modules@[self.id as int].visibility,
    {
        db.modules[self.id as usize].visibility
    }
}

impl Type {
    /// The traits that the environment's where-clauses bring into scope.
    pub fn env_traits(&self, db: &HirDatabase) -> (r: Vec<Trait>)
        ensures
            r@ == if self.env < db.envs@.len() { db.envs@[self.env as int].traits@ } else { Seq::empty() },
    {
        let mut r: Vec<Trait> = Vec::new();
        if (self.env as usize) < db.envs.len() {
            let ts = &db.envs[self.env as usize].traits;
            let mut i: usize = 0;
            while i < ts.len()
                invariant
                    i <= ts@.len(),
                    r@ == ts@.take(i as int),
                decreases ts@.len() - i,
            {
                r.push(ts[i]);
                i = i + 1;
                assert(r@ =~= ts@.take(i as int));
            }
            assert(ts@.take(i as int) =~= ts@);
        }
        r
    }
}


impl DefWithBody {
    /// The module the definition is declared in.
    pub fn module(self, db: &HirDatabase) -> (r: Module)
        requires
            self.valid(db),
            self matches DefWithBody::Variant(v) ==> db.variants@[v.id as int].parent < db.enums@.len(),
        ensures
            r.id == match self {
                DefWithBody::Function(f) => db.functions@[f.id as int].module,
                DefWithBody::Static(s) => db.statics@[s.id as int].module,
                DefWithBody::Const(c) => db.consts@[c.id as int].module,
                DefWithBody::Variant(v) => db.enums@[db.variants@[v.id as int].parent as int].module,
            },
    {
        match self {
            DefWithBody::Function(f) => f.module(db),
            DefWithBody::Static(s) => s.module(db),
            DefWithBody::Const(c) => c.module(db),
            DefWithBody::Variant(v) => v.module(db),
        }
    }

    /// The definition's name; none for an unnamed const.
    pub fn name(self, db: &HirDatabase) -> (r: Option<Name>)
        requires
            self.valid(db),
        ensures
            r == match self {
                DefWithBody::Function(f) => Some(db.functions@[f.id as int].name),
                DefWithBody::Static(s) => Some(db.statics@[s.id as int].name),
                DefWithBody::Const(c) => db.consts@[c.id as int].name,
                DefWithBody::Variant(v) => Some(db.variants@[v.id as int].name),
            },
    {
        match self {
            DefWithBody::Function(f) => Some(f.name(db)),
            DefWithBody::Static(s) => Some(s.name(db)),
            DefWithBody::Const(c) => c.name(db),
            DefWithBody::Variant(v) => Some(db.variants[v.id as usize].name),
        }
    }

    /// The type the body evaluates to: a function's return type, the type of
    /// a const or static; none for an enum variant's discriminant.
    pub fn body_type(self, db: &HirDatabase) -> (r: Option<Type>)
        requires
            self.has_body(db),
        ensures
            r == match self {
                DefWithBody::Function(f) => Some(Type { ty: db.functions@[f.id as int].ret_type, env: db.functions@[f.id as int].env }),
                DefWithBody::Static(s) => Some(Type { ty: db.statics@[s.id as int].ty, env: db.bodies@[self.body_spec(db)].env }),
                DefWithBody::Const(c) => Some(Type { ty: db.consts@[c.id as int].ty, env: db.bodies@[self.body_spec(db)].env }),
                DefWithBody::Variant(_) => None,
            },
    {
        match self {
            DefWithBody::Function(f) => Some(f.ret_type(db)),
            DefWithBody::Static(s) => Some(s.ty(db)),
            DefWithBody::Const(c) => Some(c.ty(db)),
            DefWithBody::Variant(_) => None,
        }
    }
}

impl Const {
    /// The declared type, in the environment of the const's body.
    pub fn ty(self, db: &HirDatabase) -> (r: Type)
        requires
            DefWithBody::Const(self).has_body(db),
        ensures
            r == (Type { ty: db.consts@[self.id as int].ty, env: db.bodies@[db.consts@[self.id as int].body as int].env }),
    {
        let data = &db.consts[self.id as usize];
        Type { ty: data.ty, env: db.bodies[data.body as usize].env }
    }
}

impl Static {
    /// The declared type, in the environment of the static's body.
    pub fn ty(self, db: &HirDatabase) -> (r: Type)
        requires
            DefWithBody::Static(self).has_body(db),
        ensures
            r == (Type { ty: db.statics@[self.id as int].ty, env: db.bodies@[db.statics@[self.id as int].body as int].env }),
    {
        let data = &db.statics[self.id as usize];
        Type { ty: data.ty, env: db.bodies[data.body as usize].env }
    }
}

impl Enum {
    /// Some variant of the enum carries fields.
    pub fn is_data_carrying(self, db: &HirDatabase) -> (r: bool)
        requires
            self.valid(db),
        ensures
            r == exists|i: int| 0 <= i < db.enums@[self.id as int].variants@.len() && {
                let v = #[trigger] db.enums@[self.id as int].variants@[i];
                v < db.variants@.len() && db.variants@[v as int].fields@.len() > 0
            },
    {
        let vs = &db.enums[self.id as usize].variants;
        let mut i: usize = 0;
        while i < vs.len()
            invariant
                i <= vs@.len(),
                *vs == db.enums@[self.id as int].variants,
                forall|j: int| 0 <= j < i ==> {
                    let v = #[trigger] vs@[j];
                    !(v < db.variants@.len() && db.variants@[v as int].fields@.len() > 0)
                },
            decreases vs@.len() - i,
        {
            let v = vs[i] as usize;
            if v < db.variants.len() && db.variants[v].fields.len() > 0 {
                return true;
            }
            i = i + 1;
        }
        false
    }
}

impl Adt {
    /// Some type parameter of the ADT has no default, so a use must supply it.
    pub fn has_non_default_type_params(self, db: &HirDatabase) -> (r: bool)
        ensures
            r == exists|i: int| 0 <= i < crate::generics::slots_of(db, crate::entity::GenericDef::Adt(self)).len()
                && (#[trigger] crate::generics::slots_of(db, crate::entity::GenericDef::Adt(self))[i]) matches crate::db::TypeOrConstParamData::TypeParam { default: None, .. },
    {
        crate::generics::has_type_param_without_default(db, crate::entity::GenericDef::Adt(self))
    }
}

impl Local {
    /// The inferred type of the binding, in the body's environment.
    pub fn ty(self, db: &HirDatabase) -> (r: Option<Type>)
        requires
            self.parent.has_body(db),
        ensures
            r == if self.pat_id < self.body(db).pat_types@.len() {
                Some(Type { ty: self.body(db).pat_types@[self.pat_id as int], env: self.body(db).env })
            } else {
                None
            },
    {
        let b = &db.bodies[self.parent.body_id(db)];
        if (self.pat_id as usize) < b.pat_types.len() {
            Some(Type { ty: b.pat_types[self.pat_id as usize], env: b.env })
        } else {
            None
        }
    }
}

} // verus!
