use hir::db::{
    AdtData, CrateData, CrateDependency, DerefImpl, FunctionData, HirDatabase, ImplData, ItemContainer,
    ModuleData, Mutability, Name, Scalar, TraitBound, TyKind, Visibility,
};
use hir::entity::{Adt, AssocItem, Crate, Function, Impl, Struct, Trait};
use hir::ty::{Type, AUTODEREF_LIMIT};

fn name(s: u32) -> Name {
    Name { symbol: s }
}

fn module(krate: u32) -> ModuleData {
    ModuleData {
        krate,
        parent: None,
        name: None,
        is_inline: false,
        visibility: Visibility::Public,
        scope: Vec::new(),
        declarations: Vec::new(),
        impls: Vec::new(),
    }
}

fn strukt(module: u32, n: u32) -> AdtData {
    AdtData { module, name: name(n), visibility: Visibility::Public, fields: Vec::new(), ty: 0, env: 0, is_packed: false }
}

fn adt(id: u32, args: Vec<u32>) -> TyKind {
    TyKind::Adt { adt: Adt::Struct(Struct { id }), args }
}

fn method(module: u32, n: u32, container: ItemContainer) -> FunctionData {
    FunctionData {
        module,
        name: name(n),
        visibility: Visibility::Public,
        container,
        self_param: None,
        params: Vec::new(),
        ret_type: 0,
        env: 0,
        param_list: None,
        is_unsafe: false,
        is_async: false,
        is_const: false,
        body: 0,
    }
}

#[test]
fn walk_emits_constructor_then_param_then_bound_argument() {
    let mut db = HirDatabase::empty();
    // 0: U, 1: T with bound `T: Trait<U>`, 2: Vec<T>
    db.tys.push(adt(1, Vec::new()));
    db.tys.push(TyKind::Placeholder { param: 0, bounds: vec![TraitBound { trait_: Trait { id: 0 }, args: vec![1, 0] }] });
    db.tys.push(adt(0, vec![1]));
    let vec_t = Type { ty: 2, env: 7 };
    let walked: Vec<u32> = vec_t.walk(&db).iter().map(|t| t.ty).collect();
    assert_eq!(walked, vec![2, 1, 0]);
    assert!(vec_t.walk(&db).iter().all(|t| t.env == 7));
}

#[test]
fn walk_looks_through_references_and_dyn_bounds() {
    let mut db = HirDatabase::empty();
    db.tys.push(TyKind::Scalar { scalar: Scalar::Int }); // 0
    db.tys.push(adt(3, vec![0])); // 1: A<i32>
    db.tys.push(TyKind::Ref { mutability: Mutability::Not, pointee: 1 }); // 2: &A<i32>
    db.tys.push(TyKind::Dyn { bounds: vec![TraitBound { trait_: Trait { id: 1 }, args: vec![3, 2] }] }); // 3
    let walked: Vec<u32> = Type { ty: 3, env: 0 }.walk(&db).iter().map(|t| t.ty).collect();
    assert_eq!(walked, vec![3, 1]);
}

#[test]
fn autoderef_stops_at_the_limit_on_a_cyclic_deref() {
    let mut db = HirDatabase::empty();
    db.tys.push(adt(0, Vec::new())); // 0: S, which dereferences to itself
    db.tys.push(TyKind::Ref { mutability: Mutability::Not, pointee: 0 }); // 1: &S
    db.deref_impls.push(DerefImpl { adt: Adt::Struct(Struct { id: 0 }), target: 0 });
    let chain = Type { ty: 1, env: 2 }.autoderef(&db);
    assert_eq!(chain.len(), AUTODEREF_LIMIT + 1);
    assert_eq!(chain[0], Type { ty: 1, env: 2 });
    assert!(chain[1..].iter().all(|t| *t == Type { ty: 0, env: 2 }));
}

#[test]
fn autoderef_ends_where_no_step_applies() {
    let mut db = HirDatabase::empty();
    db.tys.push(TyKind::Str); // 0
    db.tys.push(TyKind::Ref { mutability: Mutability::Mut, pointee: 0 }); // 1
    db.tys.push(TyKind::Raw { mutability: Mutability::Not, pointee: 1 }); // 2
    let chain: Vec<u32> = Type { ty: 2, env: 0 }.autoderef(&db).iter().map(|t| t.ty).collect();
    assert_eq!(chain, vec![2, 1, 0]);
}

#[test]
fn contains_unknown_finds_nested_errors() {
    let mut db = HirDatabase::empty();
    db.tys.push(TyKind::Error); // 0
    db.tys.push(TyKind::Tuple { args: vec![0] }); // 1
    db.tys.push(TyKind::Scalar { scalar: Scalar::Bool }); // 2
    db.tys.push(TyKind::Array { elem: 2, len_known: false }); // 3
    db.tys.push(TyKind::Array { elem: 2, len_known: true }); // 4
    db.tys.push(TyKind::Ref { mutability: Mutability::Not, pointee: 1 }); // 5
    db.tys.push(TyKind::Dyn { bounds: Vec::new() }); // 6
    let unknown = |t: u32| Type { ty: t, env: 0 }.contains_unknown(&db);
    assert!(unknown(0));
    assert!(unknown(1));
    assert!(!unknown(2));
    assert!(unknown(3));
    assert!(!unknown(4));
    assert!(unknown(5));
    assert!(!unknown(6));
}

fn two_crate_db() -> HirDatabase {
    let mut db = HirDatabase::empty();
    db.crates.push(CrateData { root_module: 0, dependencies: Vec::new(), def_diagnostics: Vec::new() });
    db.crates.push(CrateData {
        root_module: 1,
        dependencies: vec![CrateDependency { krate: Crate { id: 0 }, name: name(90) }],
        def_diagnostics: Vec::new(),
    });
    db.crates.push(CrateData { root_module: 2, dependencies: Vec::new(), def_diagnostics: Vec::new() });
    db.modules.push(module(0));
    db.modules.push(module(1));
    db.modules.push(module(2));
    db.structs.push(strukt(0, 1)); // struct S in crate 0
    db.tys.push(adt(0, Vec::new())); // 0: S
    db.tys.push(TyKind::Ref { mutability: Mutability::Not, pointee: 0 }); // 1: &S
    db
}

#[test]
fn impls_for_type_list_inherent_first_then_trait_impls_by_crate() {
    let mut db = two_crate_db();
    let imp = |module: u32, self_ty: u32, trait_: Option<Trait>| ImplData {
        module,
        self_ty,
        env: 0,
        trait_,
        items: Vec::new(),
        is_negative: false,
        diagnostics: Vec::new(),
    };
    db.impls.push(imp(1, 0, Some(Trait { id: 0 }))); // 0: trait impl in the dependent crate
    db.impls.push(imp(0, 0, Some(Trait { id: 0 }))); // 1: trait impl in the defining crate
    db.impls.push(imp(0, 1, None)); // 2: inherent impl for &S
    db.impls.push(imp(2, 0, Some(Trait { id: 0 }))); // 3: unrelated crate
    let found = Impl::all_for_type(&db, Type { ty: 0, env: 0 });
    assert_eq!(found, vec![Impl { id: 2 }, Impl { id: 1 }, Impl { id: 0 }]);
}

#[test]
fn inherent_method_is_found_before_trait_method_of_same_name() {
    let mut db = two_crate_db();
    let foo = 40;
    db.functions.push(method(0, foo, ItemContainer::Impl(0))); // 0: trait method foo
    db.functions.push(method(0, foo, ItemContainer::Impl(1))); // 1: inherent method foo
    db.functions.push(method(0, 41, ItemContainer::Impl(1))); // 2: inherent method bar
    db.impls.push(ImplData {
        module: 0,
        self_ty: 0,
        env: 0,
        trait_: Some(Trait { id: 0 }),
        items: vec![AssocItem::Function(Function { id: 0 })],
        is_negative: false,
        diagnostics: Vec::new(),
    });
    db.impls.push(ImplData {
        module: 0,
        self_ty: 0,
        env: 0,
        trait_: None,
        items: vec![AssocItem::Function(Function { id: 2 }), AssocItem::Function(Function { id: 1 })],
        is_negative: false,
        diagnostics: Vec::new(),
    });
    let s = Type { ty: 0, env: 0 };
    let in_scope = vec![Trait { id: 0 }];
    let found = s.iterate_method_candidates(&db, &in_scope, Some(name(foo)));
    assert_eq!(found, vec![Function { id: 1 }, Function { id: 0 }]);
    let all = s.iterate_method_candidates(&db, &in_scope, None);
    assert_eq!(all, vec![Function { id: 2 }, Function { id: 1 }, Function { id: 0 }]);
    // A trait that is not in scope contributes nothing.
    let none_in_scope = s.iterate_method_candidates(&db, &Vec::new(), Some(name(foo)));
    assert_eq!(none_in_scope, vec![Function { id: 1 }]);
    let paths = s.iterate_path_candidates(&db, &in_scope, Some(name(foo)));
    assert_eq!(paths, vec![AssocItem::Function(Function { id: 1 }), AssocItem::Function(Function { id: 0 })]);
}

#[test]
fn transitive_reverse_dependencies_follow_chains() {
    let mut db = HirDatabase::empty();
    let krate = |deps: Vec<u32>| CrateData {
        root_module: 0,
        dependencies: deps.into_iter().map(|d| CrateDependency { krate: Crate { id: d }, name: name(d) }).collect(),
        def_diagnostics: Vec::new(),
    };
    db.crates.push(krate(vec![]));
    db.crates.push(krate(vec![0]));
    db.crates.push(krate(vec![1]));
    db.crates.push(krate(vec![]));
    assert_eq!(
        Crate { id: 0 }.transitive_reverse_dependencies(&db),
        vec![Crate { id: 0 }, Crate { id: 1 }, Crate { id: 2 }]
    );
    assert_eq!(Crate { id: 0 }.reverse_dependencies(&db), vec![Crate { id: 1 }]);
    assert_eq!(Crate { id: 3 }.transitive_reverse_dependencies(&db), vec![Crate { id: 3 }]);
    assert_eq!(Crate { id: 2 }.dependencies(&db), vec![CrateDependency { krate: Crate { id: 1 }, name: name(1) }]);
}
