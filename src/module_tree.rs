//! The module tree of a crate, module scopes, and visibility.
use vstd::prelude::*;
use crate::db::{HirDatabase, MacroBinding, Name, PerNs, ScopeBinding, ScopeEntry, Visibility};
use crate::entity::{Adt, Crate, Impl, Module, ModuleDef, ScopeDef};
use crate::resolve::adt_module;

verus! {

/// `m`, its parent, and so on up to the crate root.
pub open spec fn path_spec(db: &HirDatabase, m: u32) -> Seq<Module>
    decreases m,
{
    if m < db.modules@.len() {
        match db.modules@[m as int].parent {
            Some(p) => if p < m {
                seq![Module { id: m }] + path_spec(db, p)
            } else {
                seq![Module { id: m }]
            },
            None => seq![Module { id: m }],
        }
    } else {
        seq![Module { id: m }]
    }
}

/// `a` is `m` or one of its ancestors.
pub open spec fn is_ancestor_or_self(db: &HirDatabase, a: u32, m: u32) -> bool {
    path_spec(db, m).contains(Module { id: a })
}

impl Visibility {
    /// Whether an item with this visibility can be named from module `from`.
    pub open spec fn visible_from(self, db: &HirDatabase, from: u32) -> bool {
        match self {
            Visibility::Public => true,
            Visibility::Module(m) => is_ancestor_or_self(db, m, from),
        }
    }

    pub fn is_visible_from(self, db: &HirDatabase, from: Module) -> (r: bool)
        ensures
            r == self.visible_from(db, from.id),
    {
        match self {
            Visibility::Public => true,
            Visibility::Module(m) => {
                let path = from.path_to_root(db);
                let mut i: usize = 0;
                while i < path.len()
                    invariant
                        i <= path@.len(),
                        path@ == path_spec(db, from.id),
                        self == Visibility::Module(m),
                        forall|j: int| 0 <= j < i ==> path@[j] != (Module { id: m }),
                    decreases path@.len() - i,
                {
                    if path[i].id == m {
                        assert(path@[i as int] == (Module { id: m }));
                        assert(path_spec(db, from.id).contains(Module { id: m }));
                        return true;
                    }
                    i = i + 1;
                }
                assert(!path@.contains(Module { id: m }));
                false
            },
        }
    }
}

impl Module {
    pub open spec fn valid(self, db: &HirDatabase) -> bool {
        self.id < db.modules@.len()
    }

    pub open spec fn parent_spec(self, db: &HirDatabase) -> Option<Module> {
        if self.id < db.modules@.len() {
            match db.modules@[self.id as int].parent {
                Some(p) => Some(Module { id: p }),
                None => None,
            }
        } else {
            None
        }
    }

    /// The module this one is declared in; none for a crate root.
    pub fn parent(self, db: &HirDatabase) -> (r: Option<Module>)
        ensures
            r == self.parent_spec(db),
    {
        if (self.id as usize) < db.modules.len() {
            match db.modules[self.id as usize].parent {
                Some(p) => Some(Module { id: p }),
                None => None,
            }
        } else {
            None
        }
    }

    /// This module followed by its ancestors, ending at the crate root.
    pub fn path_to_root(self, db: &HirDatabase) -> (r: Vec<Module>)
        ensures
            r@ == path_spec(db, self.id),
    {
        let mut res: Vec<Module> = Vec::new();
        res.push(self);
        let mut curr = self;
        assert(path_spec(db, self.id) =~= res@.take(0) + path_spec(db, curr.id));
        loop
            invariant
                res@.len() >= 1,
                res@[res@.len() - 1] == curr,
                path_spec(db, self.id) == res@.drop_last() + path_spec(db, curr.id),
            ensures
                res@ == path_spec(db, self.id),
            decreases curr.id,
        {
            match self_parent_below(db, curr) {
                Some(next) => {
                    let ghost r0 = res@;
                    res.push(next);
                    assert(res@.drop_last() =~= r0.drop_last() + seq![curr]);
                    curr = next;
                },
                None => {
                    assert(path_spec(db, curr.id) == seq![curr]);
                    assert(res@ =~= res@.drop_last() + seq![curr]);
                    break;
                },
            }
        }
        res
    }

    /// The crate this module belongs to.
    pub fn krate(self, db: &HirDatabase) -> (r: Crate)
        requires
            self.valid(db),
        ensures
            r.id == db.modules@[self.id as int].krate,
    {
        Crate { id: db.modules[self.id as usize].krate }
    }

    /// The name this module is declared under; none for a crate root.
    pub fn name(self, db: &HirDatabase) -> (r: Option<Name>)
        requires
            self.valid(db),
        ensures
            r == db.modules@[self.id as int].name,
    {
        db.modules[self.id as usize].name
    }

    /// The topmost ancestor of this module.
    pub fn crate_root(self, db: &HirDatabase) -> (r: Module)
        ensures
            r == path_spec(db, self.id).last(),
    {
        let path = self.path_to_root(db);
        proof {
            lemma_path_nonempty(db, self.id);
        }
        path[path.len() - 1]
    }

    pub fn is_crate_root(self, db: &HirDatabase) -> (r: bool)
        ensures
            r == (self.valid(db) && db.modules@[self.id as int].parent is None),
    {
        (self.id as usize) < db.modules.len() && db.modules[self.id as usize].parent.is_none()
    }

    /// The items declared directly in this module.
    pub fn declarations(self, db: &HirDatabase) -> (r: Vec<ModuleDef>)
        requires
            self.valid(db),
        ensures
            r@ == db.modules@[self.id as int].declarations@,
    {
        let decls = &db.modules[self.id as usize].declarations;
        let mut r: Vec<ModuleDef> = Vec::new();
        let mut i: usize = 0;
        while i < decls.len()
            invariant
                i <= decls@.len(),
                r@ == decls@.take(i as int),
            decreases decls@.len() - i,
        {
            r.push(decls[i]);
            i = i + 1;
            assert(r@ =~= decls@.take(i as int));
        }
        assert(decls@.take(i as int) =~= decls@);
        r
    }

    /// The child modules declared in this module, in declaration order.
    pub fn children(self, db: &HirDatabase) -> (r: Vec<Module>)
        requires
            self.valid(db),
        ensures
            r@ == db.modules@[self.id as int].declarations@.filter(|d: ModuleDef| d is Module).map_values(
                |d: ModuleDef| Module { id: d->Module_0.id },
            ),
    {
        let decls = &db.modules[self.id as usize].declarations;
        let mut r: Vec<Module> = Vec::new();
        let mut i: usize = 0;
        while i < decls.len()
            invariant
                i <= decls@.len(),
                r@ == decls@.take(i as int).filter(|d: ModuleDef| d is Module).map_values(
                    |d: ModuleDef| Module { id: d->Module_0.id },
                ),
            decreases decls@.len() - i,
        {
            proof {
                reveal(Seq::filter);
                assert(decls@.take(i + 1).drop_last() =~= decls@.take(i as int));
            }
            match decls[i] {
                ModuleDef::Module(c) => {
                    r.push(c);
                },
                _ => {},
            }
            i = i + 1;
            assert(r@ =~= decls@.take(i as int).filter(|d: ModuleDef| d is Module).map_values(
                |d: ModuleDef| Module { id: d->Module_0.id },
            ));
        }
        assert(decls@.take(i as int) =~= decls@);
        r
    }

    /// The impls declared in this module.
    pub fn impl_defs(self, db: &HirDatabase) -> (r: Vec<Impl>)
        requires
            self.valid(db),
        ensures
            r@ == db.modules@[self.id as int].impls@.map_values(|i: u32| Impl { id: i }),
    {
        let impls = &db.modules[self.id as usize].impls;
        let mut r: Vec<Impl> = Vec::new();
        let mut i: usize = 0;
        while i < impls.len()
            invariant
                i <= impls@.len(),
                r@ == impls@.take(i as int).map_values(|i: u32| Impl { id: i }),
            decreases impls@.len() - i,
        {
            r.push(Impl { id: impls[i] });
            i = i + 1;
            assert(r@ =~= impls@.take(i as int).map_values(|i: u32| Impl { id: i }));
        }
        assert(impls@.take(i as int) =~= impls@);
        r
    }
}

/// The parent of `m` when the snapshot orders it before `m`.
fn self_parent_below(db: &HirDatabase, m: Module) -> (r: Option<Module>)
    ensures
        match r {
            Some(p) => p.id < m.id && path_spec(db, m.id) == seq![m] + path_spec(db, p.id),
            None => path_spec(db, m.id) == seq![m],
        },
{
    match m.parent(db) {
        Some(p) => if p.id < m.id {
            Some(p)
        } else {
            None
        },
        None => None,
    }
}

pub proof fn lemma_path_nonempty(db: &HirDatabase, m: u32)
    ensures
        path_spec(db, m).len() >= 1,
        path_spec(db, m)[0] == (Module { id: m }),
    decreases m,
{
}


/// When `x` is on the path of `y`, the path of `x` is part of the path of `y`.
pub proof fn lemma_path_transitive(db: &HirDatabase, x: u32, y: u32, z: u32)
    requires
        is_ancestor_or_self(db, x, y),
        is_ancestor_or_self(db, z, x),
    ensures
        is_ancestor_or_self(db, z, y),
    decreases y,
{
    lemma_path_nonempty(db, y);
    if x != y {
        let path = path_spec(db, y);
        let w = choose|w: int| 0 <= w < path.len() && path[w] == (Module { id: x });
        assert(w != 0);
        let p = db.modules@[y as int].parent->Some_0;
        assert(path == seq![Module { id: y }] + path_spec(db, p));
        assert(path_spec(db, p)[w - 1] == (Module { id: x }));
        lemma_path_transitive(db, x, p, z);
        let v = choose|v: int| 0 <= v < path_spec(db, p).len() && path_spec(db, p)[v] == (Module { id: z });
        assert(path[v + 1] == (Module { id: z }));
    }
}

/// An item visible from a module stays visible from each ancestor of that
/// module, as long as the ancestor lies inside the subtree the item's
/// visibility is restricted to (a public item: from every ancestor).
pub proof fn lemma_visibility_on_path_to_root(db: &HirDatabase, vis: Visibility, x: u32, a: u32)
    requires
        vis.visible_from(db, x),
        is_ancestor_or_self(db, a, x),
        vis matches Visibility::Module(m) ==> is_ancestor_or_self(db, m, a),
    ensures
        vis.visible_from(db, a),
{
}

/// An item visible from a module is visible from every module nested in it.
pub proof fn lemma_visibility_inherited(db: &HirDatabase, vis: Visibility, x: u32, y: u32)
    requires
        vis.visible_from(db, x),
        is_ancestor_or_self(db, x, y),
    ensures
        vis.visible_from(db, y),
{
    if let Visibility::Module(m) = vis {
        lemma_path_transitive(db, x, y, m);
    }
}

/// The module a definition is declared in.
pub open spec fn def_module(db: &HirDatabase, d: ModuleDef) -> Option<u32> {
    match d {
        ModuleDef::Module(m) => match m.parent_spec(db) {
            Some(p) => Some(p.id),
            None => None,
        },
        ModuleDef::Function(f) => if f.id < db.functions@.len() { Some(db.functions@[f.id as int].module) } else { None },
        ModuleDef::Adt(a) => adt_module(db, a),
        ModuleDef::Variant(v) => if v.id < db.variants@.len() {
            adt_module(db, Adt::Enum(crate::entity::Enum { id: db.variants@[v.id as int].parent }))
        } else {
            None
        },
        ModuleDef::Const(c) => if c.id < db.consts@.len() { Some(db.consts@[c.id as int].module) } else { None },
        ModuleDef::Static(s) => if s.id < db.statics@.len() { Some(db.statics@[s.id as int].module) } else { None },
        ModuleDef::Trait(t) => if t.id < db.traits@.len() { Some(db.traits@[t.id as int].module) } else { None },
        ModuleDef::TypeAlias(t) => if t.id < db.type_aliases@.len() {
            Some(db.type_aliases@[t.id as int].module)
        } else {
            None
        },
        ModuleDef::Macro(m) => if m.id < db.macros@.len() { Some(db.macros@[m.id as int].module) } else { None },
    }
}

/// Distinct modules, siblings included, declare disjoint sets of definitions.
pub proof fn lemma_declarations_disjoint(db: &HirDatabase, m1: Module, m2: Module)
    requires
        db.wf(),
        m1.valid(db),
        m2.valid(db),
        m1 != m2,
    ensures
        forall|d: ModuleDef|
            !(db.modules@[m1.id as int].declarations@.contains(d) && db.modules@[m2.id as int].declarations@.contains(d)),
{
    assert forall|d: ModuleDef|
        !(db.modules@[m1.id as int].declarations@.contains(d) && db.modules@[m2.id as int].declarations@.contains(d)) by {
        if db.modules@[m1.id as int].declarations@.contains(d) && db.modules@[m2.id as int].declarations@.contains(d) {
            let i = choose|i: int| 0 <= i < db.modules@[m1.id as int].declarations@.len() && db.modules@[m1.id as int].declarations@[i] == d;
            let j = choose|j: int| 0 <= j < db.modules@[m2.id as int].declarations@.len() && db.modules@[m2.id as int].declarations@[j] == d;
            assert(def_module(db, db.modules@[m1.id as int].declarations@[i]) == Some(m1.id));
            assert(def_module(db, db.modules@[m2.id as int].declarations@[j]) == Some(m2.id));
        }
    }
}


/// The definitions a scope slot denotes: the type, the value when it differs
/// from the type, then the macro; a single `Unknown` when the slot is empty.
pub open spec fn all_items_spec(def: PerNs) -> Seq<ScopeDef> {
    let tv: Seq<ScopeDef> = match (def.types, def.values) {
        (Some(t), None) => seq![ScopeDef::ModuleDef(t.def)],
        (None, Some(v)) => seq![ScopeDef::ModuleDef(v.def)],
        (Some(t), Some(v)) => if t.def != v.def {
            seq![ScopeDef::ModuleDef(t.def), ScopeDef::ModuleDef(v.def)]
        } else {
            seq![ScopeDef::ModuleDef(t.def)]
        },
        (None, None) => Seq::empty(),
    };
    let all = match def.macros {
        Some(m) => tv.push(ScopeDef::ModuleDef(ModuleDef::Macro(m.mac))),
        None => tv,
    };
    if all.len() == 0 {
        seq![ScopeDef::Unknown]
    } else {
        all
    }
}

impl ScopeDef {
    /// Every definition a scope slot denotes, as [`all_items_spec`] orders them.
    pub fn all_items(def: PerNs) -> (r: Vec<ScopeDef>)
        ensures
            r@ == all_items_spec(def),
    {
        let mut items: Vec<ScopeDef> = Vec::new();
        match (def.types, def.values) {
            (Some(t), None) => items.push(ScopeDef::ModuleDef(t.def)),
            (None, Some(v)) => items.push(ScopeDef::ModuleDef(v.def)),
            (Some(t), Some(v)) => {
                items.push(ScopeDef::ModuleDef(t.def));
                if t.def != v.def {
                    items.push(ScopeDef::ModuleDef(v.def));
                }
            },
            (None, None) => {},
        }
        match def.macros {
            Some(m) => items.push(ScopeDef::ModuleDef(ModuleDef::Macro(m.mac))),
            None => {},
        }
        if items.len() == 0 {
            items.push(ScopeDef::Unknown);
        }
        assert(items@ =~= all_items_spec(def));
        items
    }
}

/// A binding survives the filter when there is no requesting module or the
/// binding is visible from it.
pub open spec fn keeps(db: &HirDatabase, vis: Visibility, from: Option<Module>) -> bool {
    match from {
        Some(m) => vis.visible_from(db, m.id),
        None => true,
    }
}

/// The slot with the bindings that `from` cannot see removed.
pub open spec fn filter_visibility(db: &HirDatabase, def: PerNs, from: Option<Module>) -> PerNs {
    PerNs {
        types: match def.types {
            Some(b) => if keeps(db, b.visibility, from) { Some(b) } else { None },
            None => None,
        },
        values: match def.values {
            Some(b) => if keeps(db, b.visibility, from) { Some(b) } else { None },
            None => None,
        },
        macros: match def.macros {
            Some(b) => if keeps(db, b.visibility, from) { Some(b) } else { None },
            None => None,
        },
    }
}

fn keeps_exec(db: &HirDatabase, vis: Visibility, from: Option<Module>) -> (r: bool)
    ensures
        r == keeps(db, vis, from),
{
    match from {
        Some(m) => vis.is_visible_from(db, m),
        None => true,
    }
}

fn filter_binding(db: &HirDatabase, b: Option<ScopeBinding>, from: Option<Module>) -> (r: Option<ScopeBinding>)
    ensures
        r == match b {
            Some(x) => if keeps(db, x.visibility, from) { Some(x) } else { None },
            None => None,
        },
{
    match b {
        Some(x) => if keeps_exec(db, x.visibility, from) { Some(x) } else { None },
        None => None,
    }
}

/// The entries of a scope, one per definition a name denotes.
pub open spec fn scope_items(db: &HirDatabase, entries: Seq<ScopeEntry>, from: Option<Module>) -> Seq<(Name, ScopeDef)>
    decreases entries.len(),
{
    if entries.len() == 0 {
        Seq::empty()
    } else {
        let e = entries.last();
        scope_items(db, entries.drop_last(), from) + all_items_spec(filter_visibility(db, e.def, from)).map_values(
            |d: ScopeDef| (e.name, d),
        )
    }
}

impl Module {
    /// The names bound in this module's scope with what each denotes, seen
    /// from `visible_from` when given. A name whose every definition is hidden
    /// from there stays, as `ScopeDef::Unknown`.
    pub fn scope(self, db: &HirDatabase, visible_from: Option<Module>) -> (r: Vec<(Name, ScopeDef)>)
        requires
            self.valid(db),
        ensures
            r@ == scope_items(db, db.modules@[self.id as int].scope@, visible_from),
    {
        let entries = &db.modules[self.id as usize].scope;
        let mut r: Vec<(Name, ScopeDef)> = Vec::new();
        let mut i: usize = 0;
        while i < entries.len()
            invariant
                i <= entries@.len(),
                r@ == scope_items(db, entries@.take(i as int), visible_from),
            decreases entries@.len() - i,
        {
            let e = entries[i];
            let macros: Option<MacroBinding> = match e.def.macros {
                Some(x) => if keeps_exec(db, x.visibility, visible_from) { Some(x) } else { None },
                None => None,
            };
            let filtered = PerNs {
                types: filter_binding(db, e.def.types, visible_from),
                values: filter_binding(db, e.def.values, visible_from),
                macros,
            };
            assert(filtered == filter_visibility(db, e.def, visible_from));
            let items = ScopeDef::all_items(filtered);
            let ghost r0 = r@;
            let mut j: usize = 0;
            while j < items.len()
                invariant
                    j <= items@.len(),
                    r@ == r0 + items@.take(j as int).map_values(|d: ScopeDef| (e.name, d)),
                decreases items@.len() - j,
            {
                r.push((e.name, items[j]));
                j = j + 1;
                assert(r@ =~= r0 + items@.take(j as int).map_values(|d: ScopeDef| (e.name, d)));
            }
            assert(items@.take(j as int) =~= items@);
            assert(entries@.take(i + 1).drop_last() =~= entries@.take(i as int));
            i = i + 1;
        }
        assert(entries@.take(i as int) =~= entries@);
        r
    }
}

} // verus!
