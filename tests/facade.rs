use hir::callable::{CallableKind, ParamSource};
use hir::db::{
    Access, AdtData, CrateData, CrateDependency, EnumData, FieldData, FunctionData, HirDatabase, ImplData,
    ItemContainer, LangItem, LangTrait, MacroData, MacroExpander, MacroKind, ProcMacroKind, ModuleData, Mutability, Name, ParamListSyntax,
    Scalar, SolverOutcome, SourcePtr, TextRange, TraitData, TraitEnvironment, TraitSolution, TyKind,
    VariantData, Visibility,
};
use hir::entity::{
    BuiltinType,
    Adt, AssocItem, AssocItemContainer, Crate, Enum, Field, Function, Impl, Macro, Module, ModuleDef, Param,
    Struct, Trait, Variant, VariantDef,
};
use hir::ty::Type;

fn name(s: u32) -> Name {
    Name { symbol: s }
}

fn ptr(start: u32, end: u32) -> SourcePtr {
    SourcePtr { file: 1, range: TextRange { start, end } }
}

fn module(krate: u32, parent: Option<u32>, n: Option<u32>) -> ModuleData {
    ModuleData {
        krate,
        parent,
        name: n.map(name),
        is_inline: false,
        visibility: Visibility::Public,
        scope: Vec::new(),
        declarations: Vec::new(),
        impls: Vec::new(),
    }
}

fn function(n: u32, container: ItemContainer) -> FunctionData {
    FunctionData {
        module: 1,
        name: name(n),
        visibility: Visibility::Module(0),
        container,
        self_param: None,
        params: Vec::new(),
        ret_type: 0,
        env: 0,
        param_list: None,
        is_unsafe: false,
        is_async: false,
        is_const: false,
        body: 0,
    }
}

fn solution(trait_: u32, self_ty: u32, args: Vec<u32>, outcome: SolverOutcome) -> TraitSolution {
    TraitSolution { trait_: Trait { id: trait_ }, self_ty, args, outcome }
}

#[test]
fn trait_predicates_accept_only_definite_answers() {
    let mut db = HirDatabase::empty();
    db.envs.push(TraitEnvironment { krate: 0, traits: Vec::new() });
    db.lang_traits.push(LangTrait { krate: 0, item: LangItem::Copy, trait_: Trait { id: 1 } });
    db.lang_traits.push(LangTrait { krate: 0, item: LangItem::FnOnce, trait_: Trait { id: 2 } });
    db.lang_traits.push(LangTrait { krate: 0, item: LangItem::Future, trait_: Trait { id: 3 } });
    db.tys.push(TyKind::Scalar { scalar: Scalar::Int }); // 0
    db.tys.push(TyKind::Str); // 1
    db.solutions.push(solution(1, 0, vec![0], SolverOutcome::Unique));
    db.solutions.push(solution(2, 0, vec![0], SolverOutcome::Ambiguous));
    db.solutions.push(solution(3, 1, vec![1], SolverOutcome::Unique));
    db.solutions.push(solution(5, 0, vec![0, 1], SolverOutcome::Unique));
    let int = Type { ty: 0, env: 0 };
    let s = Type { ty: 1, env: 0 };
    assert!(int.is_copy(&db));
    assert!(!s.is_copy(&db));
    assert!(!int.impls_fnonce(&db));
    assert!(s.impls_into_future(&db));
    assert!(!int.impls_into_future(&db));
    assert!(int.impls_trait(&db, Trait { id: 5 }, &vec![1]));
    assert!(!int.impls_trait(&db, Trait { id: 5 }, &vec![0]));
    assert!(!int.impls_trait(&db, Trait { id: 2 }, &Vec::new()));
    // An environment the snapshot does not hold knows no language traits.
    assert!(!Type { ty: 0, env: 9 }.is_copy(&db));
}

#[test]
fn type_shape_predicates() {
    let mut db = HirDatabase::empty();
    db.tys.push(TyKind::Tuple { args: Vec::new() }); // 0
    db.tys.push(TyKind::Scalar { scalar: Scalar::Bool }); // 1
    db.tys.push(TyKind::Ref { mutability: Mutability::Mut, pointee: 1 }); // 2
    db.tys.push(TyKind::Ref { mutability: Mutability::Not, pointee: 2 }); // 3
    db.tys.push(TyKind::Tuple { args: vec![1, 0] }); // 4
    db.tys.push(TyKind::Adt { adt: Adt::Struct(Struct { id: 0 }), args: vec![1, 4] }); // 5
    db.tys.push(TyKind::Ref { mutability: Mutability::Not, pointee: 5 }); // 6
    db.tys.push(TyKind::Never); // 7
    db.tys.push(TyKind::Slice { elem: 1 }); // 8
    db.tys.push(TyKind::FnPtr { args: vec![1] }); // 9
    db.tys.push(TyKind::Error); // 10
    db.structs.push(AdtData {
        module: 0,
        name: name(1),
        visibility: Visibility::Public,
        fields: Vec::new(),
        ty: 5,
        env: 0,
        is_packed: true,
    });
    let t = |ty: u32| Type { ty, env: 4 };
    assert!(t(0).is_unit(&db));
    assert!(!t(4).is_unit(&db));
    assert!(t(1).is_bool(&db));
    assert!(t(2).is_mutable_reference(&db));
    assert!(t(3).is_reference(&db));
    assert!(!t(3).is_mutable_reference(&db));
    assert_eq!(t(3).as_reference(&db), Some((t(2), Mutability::Not)));
    assert_eq!(t(3).strip_reference(&db), t(2));
    assert_eq!(t(3).strip_references(&db), t(1));
    assert_eq!(t(1).remove_ref(&db), None);
    assert_eq!(t(4).tuple_fields(&db), vec![t(1), t(0)]);
    assert_eq!(t(6).type_arguments(&db), vec![t(1), t(4)]);
    assert_eq!(t(6).as_adt(&db), None);
    assert_eq!(t(5).as_adt(&db), Some(Adt::Struct(Struct { id: 0 })));
    assert!(t(5).is_packed(&db));
    assert!(t(7).is_never(&db));
    assert!(t(8).is_slice(&db));
    assert!(t(9).is_fn(&db));
    assert!(t(10).is_unknown(&db));
    assert!(!t(11).is_unknown(&db));
    assert_eq!(t(2).derived(7), t(7));
}

#[test]
fn callable_params_pair_patterns_with_types() {
    let mut db = HirDatabase::empty();
    db.tys.push(TyKind::Scalar { scalar: Scalar::Int }); // 0
    db.tys.push(TyKind::Scalar { scalar: Scalar::Bool }); // 1
    db.tys.push(TyKind::FnDef { func: Function { id: 0 }, args: Vec::new() }); // 2
    db.tys.push(TyKind::FnPtr { args: vec![0, 1] }); // 3
    let mut f = function(5, ItemContainer::Module);
    f.self_param = Some(Access::Shared);
    f.params = vec![0, 0, 1];
    f.ret_type = 1;
    f.param_list = Some(ParamListSyntax { self_param: Some(ptr(0, 5)), params: vec![Some(ptr(6, 7)), None] });
    db.functions.push(f);
    let func = Function { id: 0 };
    let callable = Type { ty: 2, env: 3 }.as_callable(&db).unwrap();
    assert_eq!(callable.kind(), CallableKind::Function(Function { id: 0 }));
    assert_eq!(callable.n_params(), 3);
    assert_eq!(callable.return_type(), Type { ty: 1, env: 3 });
    assert_eq!(
        callable.params(&db),
        vec![
            (Some(ParamSource::SelfParam(ptr(0, 5))), Type { ty: 0, env: 3 }),
            (Some(ParamSource::Pat(ptr(6, 7))), Type { ty: 0, env: 3 }),
            (None, Type { ty: 1, env: 3 }),
        ]
    );
    let mut bound = callable.clone();
    bound.is_bound_method = true;
    assert_eq!(bound.n_params(), 2);
    assert_eq!(
        bound.params(&db),
        vec![(Some(ParamSource::Pat(ptr(6, 7))), Type { ty: 0, env: 3 }), (None, Type { ty: 1, env: 3 })]
    );
    assert_eq!(callable.receiver_param(&db), None);
    assert_eq!(bound.receiver_param(&db), Some(ptr(0, 5)));
    assert_eq!(func.method_params(&db).unwrap().len(), 2);
    let fn_ptr = Type { ty: 3, env: 0 }.as_callable(&db).unwrap();
    assert_eq!(fn_ptr.kind(), CallableKind::FnPtr);
    assert_eq!(fn_ptr.params(&db), vec![(None, Type { ty: 0, env: 0 })]);
    assert_eq!(fn_ptr.return_type(), Type { ty: 1, env: 0 });
    assert!(Type { ty: 0, env: 0 }.as_callable(&db).is_none());
    assert!(func.has_self_param(&db));
    assert_eq!(func.self_param(&db).unwrap().access(&db), Access::Shared);
    assert_eq!(func.self_param(&db).unwrap().display(&db), "&self");
    assert_eq!(func.assoc_fn_params(&db).len(), 3);
    assert_eq!(
        func.params_without_self(&db),
        vec![
            Param { func, idx: 1, ty: Type { ty: 0, env: 0 } },
            Param { func, idx: 2, ty: Type { ty: 1, env: 0 } },
        ]
    );
    assert_eq!(func.ret_type(&db), Type { ty: 1, env: 0 });
}

fn crates_db() -> HirDatabase {
    let mut db = HirDatabase::empty();
    db.crates.push(CrateData { root_module: 0, dependencies: Vec::new(), def_diagnostics: Vec::new() });
    db.crates.push(CrateData {
        root_module: 2,
        dependencies: vec![CrateDependency { krate: Crate { id: 0 }, name: name(1) }],
        def_diagnostics: Vec::new(),
    });
    db.modules.push(module(0, None, None)); // 0: root of crate 0
    db.modules.push(module(0, Some(0), Some(20))); // 1: crate 0, `a`
    db.modules.push(module(1, None, None)); // 2: root of crate 1
    db.traits.push(TraitData {
        module: 1,
        name: name(30),
        visibility: Visibility::Public,
        is_auto: false,
        is_unsafe: true,
        items: vec![AssocItem::Function(Function { id: 0 })],
        diagnostics: Vec::new(),
    });
    db.functions.push(function(31, ItemContainer::Trait(0)));
    db.functions.push(function(32, ItemContainer::Impl(1)));
    db.functions.push(function(33, ItemContainer::Module));
    let imp = |module: u32, trait_: Option<Trait>, items: Vec<AssocItem>| ImplData {
        module,
        self_ty: 0,
        env: 0,
        trait_,
        items,
        is_negative: module == 2,
        diagnostics: Vec::new(),
    };
    db.impls.push(imp(2, Some(Trait { id: 0 }), Vec::new())); // 0: crate 1
    db.impls.push(imp(1, Some(Trait { id: 0 }), vec![AssocItem::Function(Function { id: 1 })])); // 1: crate 0
    db.impls.push(imp(0, None, Vec::new())); // 2: crate 0, inherent
    db.impls.push(imp(0, Some(Trait { id: 7 }), Vec::new())); // 3: crate 0, other trait
    db
}

#[test]
fn impls_by_crate_and_by_trait() {
    let db = crates_db();
    assert_eq!(Impl::all_in_crate(&db, Crate { id: 0 }), vec![Impl { id: 2 }, Impl { id: 1 }, Impl { id: 3 }]);
    assert_eq!(Impl::all_for_trait(&db, Trait { id: 0 }), vec![Impl { id: 1 }, Impl { id: 0 }]);
    let first = Impl { id: 0 };
    assert!(first.is_negative(&db));
    assert_eq!(first.trait_(&db), Some(Trait { id: 0 }));
    assert_eq!(first.module(&db), Module { id: 2 });
    assert_eq!(Impl { id: 1 }.items(&db), vec![AssocItem::Function(Function { id: 1 })]);
    assert_eq!(Impl { id: 1 }.self_ty(&db), Type { ty: 0, env: 0 });
}

#[test]
fn associated_items_know_their_container() {
    let db = crates_db();
    let in_trait = AssocItem::Function(Function { id: 0 });
    let in_impl = AssocItem::Function(Function { id: 1 });
    assert_eq!(in_trait.container(&db), AssocItemContainer::Trait(Trait { id: 0 }));
    assert_eq!(in_trait.containing_trait(&db), Some(Trait { id: 0 }));
    assert_eq!(in_trait.containing_trait_impl(&db), None);
    assert_eq!(in_impl.container(&db), AssocItemContainer::Impl(Impl { id: 1 }));
    assert_eq!(in_impl.containing_trait(&db), None);
    assert_eq!(in_impl.containing_trait_impl(&db), Some(Trait { id: 0 }));
    let t = Trait { id: 0 };
    assert_eq!(t.items(&db), vec![in_trait]);
    assert!(t.is_unsafe(&db));
    assert!(!t.is_auto(&db));
    assert_eq!(t.module(&db), Module { id: 1 });
    assert_eq!(t.name(&db), name(30));
}

#[test]
fn module_defs_report_module_name_and_path() {
    let mut db = crates_db();
    db.enums.push(EnumData {
        module: 1,
        name: name(40),
        visibility: Visibility::Module(1),
        variants: vec![0],
        ty: 0,
        env: 2,
    });
    db.variants.push(VariantData {
        parent: 0,
        name: name(41),
        fields: vec![FieldData { name: name(42), ty: 0, visibility: Visibility::Public }],
        body: 0,
    });
    db.macros.push(MacroData {
        module: 0,
        name: name(50),
        visibility: Visibility::Public,
        expander: MacroExpander::ProcMacro(ProcMacroKind::Attr),
        macro_export: true,
    });
    let free = ModuleDef::Function(Function { id: 2 });
    assert_eq!(free.name(&db), Some(name(33)));
    assert_eq!(free.module(&db), Some(Module { id: 1 }));
    assert_eq!(free.visibility(&db), Visibility::Module(0));
    assert_eq!(free.canonical_path(&db), Some(vec![name(20), name(33)]));
    assert_eq!(ModuleDef::Module(Module { id: 0 }).canonical_path(&db), None);
    let variant = ModuleDef::Variant(Variant { id: 0 });
    assert_eq!(variant.module(&db), Some(Module { id: 1 }));
    assert_eq!(variant.visibility(&db), Visibility::Module(1));
    assert_eq!(Enum { id: 0 }.variants(&db), vec![Variant { id: 0 }]);
    assert!(Enum { id: 0 }.is_data_carrying(&db));
    let fields = std::mem::take(&mut db.variants[0].fields);
    assert!(!Enum { id: 0 }.is_data_carrying(&db));
    db.variants[0].fields = fields;
    assert_eq!(Enum { id: 0 }.ty(&db), Type { ty: 0, env: 2 });
    assert_eq!(Adt::Enum(Enum { id: 0 }).name(&db), name(40));
    assert_eq!(Variant { id: 0 }.parent_enum(&db), Enum { id: 0 });
    let fields = VariantDef::Variant(Variant { id: 0 }).fields(&db);
    assert_eq!(fields, vec![Field { parent: VariantDef::Variant(Variant { id: 0 }), index: 0 }]);
    assert_eq!(fields[0].name(&db), name(42));
    let mac = Macro { id: 0 };
    assert!(mac.is_attr(&db));
    assert!(!mac.is_fn_like(&db));
    assert!(!mac.is_derive(&db));
    assert_eq!(mac.kind(&db), MacroKind::Attr);
    assert!(mac.is_macro_export(&db));
    assert!(!mac.is_builtin_derive(&db));
    db.macros[0].expander = MacroExpander::BuiltInDerive;
    assert!(mac.is_derive(&db));
    assert!(mac.is_builtin_derive(&db));
    db.macros[0].expander = MacroExpander::BuiltInEager;
    assert_eq!(mac.kind(&db), MacroKind::BuiltIn);
    assert!(mac.is_fn_like(&db));
    assert_eq!(ModuleDef::Macro(mac).name(&db), Some(name(50)));
    assert_eq!(Crate { id: 0 }.modules(&db), vec![Module { id: 0 }, Module { id: 1 }]);
    assert_eq!(Crate { id: 1 }.root_module(&db), Module { id: 2 });
    assert_eq!(Module { id: 1 }.krate(&db), Crate { id: 0 });
    assert_eq!(Module { id: 1 }.name(&db), Some(name(20)));
    assert_eq!(ModuleDef::Function(Function { id: 2 }).as_def_with_body().is_some(), true);
    assert_eq!(ModuleDef::Macro(mac).as_def_with_body(), None);
    assert_eq!(Access::from_mutability(Mutability::Mut), Access::Exclusive);
}

#[test]
fn remaining_accessors_read_the_snapshot() {
    let mut db = crates_db();
    db.envs.push(TraitEnvironment { krate: 0, traits: vec![Trait { id: 0 }, Trait { id: 7 }] });
    db.tys.push(TyKind::Adt { adt: Adt::Struct(Struct { id: 0 }), args: Vec::new() }); // 0
    db.tys.push(TyKind::Array { elem: 0, len_known: true }); // 1
    db.tys.push(TyKind::Closure { args: vec![0] }); // 2
    db.tys.push(TyKind::Raw { mutability: Mutability::Not, pointee: 0 }); // 3
    db.tys.push(TyKind::Scalar { scalar: Scalar::Usize }); // 4
    db.tys.push(TyKind::Dyn { bounds: vec![hir::db::TraitBound { trait_: Trait { id: 7 }, args: vec![5] }] }); // 5
    db.structs.push(AdtData {
        module: 0,
        name: name(70),
        visibility: Visibility::Public,
        fields: Vec::new(),
        ty: 0,
        env: 0,
        is_packed: false,
    });
    db.functions[2].is_unsafe = true;
    db.modules[0].impls = vec![2, 3];
    let t = |ty: u32| Type { ty, env: 0 };
    assert!(t(1).is_array(&db));
    assert!(t(2).is_closure(&db));
    assert!(t(3).is_raw_ptr(&db));
    assert!(t(4).is_usize(&db));
    let usize_ty = t(4).as_builtin(&db).unwrap();
    assert!(usize_ty.is_uint());
    assert!(!usize_ty.is_int());
    assert!(!usize_ty.is_str());
    assert_eq!(t(0).as_builtin(&db), None);
    assert!(BuiltinType::str().is_str());
    assert_eq!(t(5).as_dyn_trait(&db), Some(Trait { id: 7 }));
    assert_eq!(t(5).as_impl_traits(&db), None);
    db.tys.push(TyKind::OpaqueType { bounds: vec![hir::db::TraitBound { trait_: Trait { id: 7 }, args: vec![6] }], args: Vec::new() }); // 6
    assert_eq!(t(6).as_impl_traits(&db), Some(vec![Trait { id: 7 }]));
    assert_eq!(t(0).as_dyn_trait(&db), None);
    assert_eq!(t(0).env_traits(&db), vec![Trait { id: 0 }, Trait { id: 7 }]);
    assert_eq!(Adt::Struct(Struct { id: 0 }).as_enum(), None);
    assert_eq!(Adt::Enum(Enum { id: 3 }).as_enum(), Some(Enum { id: 3 }));
    assert!(Function { id: 2 }.is_unsafe_to_call(&db));
    assert_eq!(Module { id: 0 }.impl_defs(&db), vec![Impl { id: 2 }, Impl { id: 3 }]);
    let in_impl = AssocItem::Function(Function { id: 1 });
    assert_eq!(in_impl.containing_trait_or_trait_impl(&db), Some(Trait { id: 0 }));
    assert_eq!(ModuleDef::Function(Function { id: 1 }).as_assoc_item(&db), Some(in_impl));
    assert_eq!(ModuleDef::Function(Function { id: 2 }).as_assoc_item(&db), None);
    let field = Field { parent: VariantDef::Struct(Struct { id: 0 }), index: 0 };
    assert_eq!(field.parent_def(), VariantDef::Struct(Struct { id: 0 }));
    // The inherent impl 2 of the type's crate holds no items; give it one.
    db.impls[2].items = vec![AssocItem::Function(Function { id: 2 })];
    assert_eq!(t(0).iterate_assoc_items(&db), vec![AssocItem::Function(Function { id: 2 })]);
}
