use hir::db::{GenericParamsData, HirDatabase, Name, Normalization, TyKind, TypeOrConstParamData, TypeParamProvenance};
use hir::entity::{
    Adt, Struct,
    ConstParam, GenericDef, GenericParam, LifetimeParam, Trait, TypeAlias, TypeOrConstParam, TypeParam,
};
use hir::ty::Type;

fn name(s: u32) -> Name {
    Name { symbol: s }
}

fn trait_generics() -> HirDatabase {
    let mut db = HirDatabase::empty();
    db.tys.push(TyKind::Placeholder { param: 0, bounds: Vec::new() }); // 0: Self
    db.tys.push(TyKind::Placeholder { param: 1, bounds: Vec::new() }); // 1: T
    db.tys.push(TyKind::Placeholder { param: 2, bounds: Vec::new() }); // 2: U
    db.generics.push(GenericParamsData {
        owner: GenericDef::Trait(Trait { id: 0 }),
        env: 5,
        lifetimes: vec![name(1)],
        type_or_consts: vec![
            TypeOrConstParamData::TypeParam {
                name: Some(name(2)),
                provenance: TypeParamProvenance::TraitSelf,
                ty: 0,
                default: None,
                bounds: Vec::new(),
            },
            TypeOrConstParamData::TypeParam {
                name: Some(name(3)),
                provenance: TypeParamProvenance::TypeParamList,
                ty: 1,
                default: None,
                bounds: vec![Trait { id: 4 }],
            },
            TypeOrConstParamData::ConstParam { name: name(4), ty: 9 },
            TypeOrConstParamData::TypeParam {
                name: Some(name(5)),
                provenance: TypeParamProvenance::TypeParamList,
                ty: 2,
                default: Some(1),
                bounds: Vec::new(),
            },
        ],
    });
    db
}

#[test]
fn generic_params_list_lifetimes_then_split_slots() {
    let db = trait_generics();
    let def = GenericDef::Trait(Trait { id: 0 });
    assert_eq!(
        def.params(&db),
        vec![
            GenericParam::LifetimeParam(LifetimeParam { parent: def, local_id: 0 }),
            GenericParam::TypeParam(TypeParam { parent: def, local_id: 0 }),
            GenericParam::TypeParam(TypeParam { parent: def, local_id: 1 }),
            GenericParam::ConstParam(ConstParam { parent: def, local_id: 2 }),
            GenericParam::TypeParam(TypeParam { parent: def, local_id: 3 }),
        ]
    );
    assert_eq!(def.type_params(&db).len(), 4);
    let slot = TypeOrConstParam { parent: def, local_id: 2 };
    assert_eq!(slot.split(&db), GenericParam::ConstParam(ConstParam { parent: def, local_id: 2 }));
    assert_eq!(slot.name(&db), Some(name(4)));
    assert_eq!(ConstParam { parent: def, local_id: 2 }.merge(), slot);
    // A definition without a generics record declares nothing.
    assert!(GenericDef::Trait(Trait { id: 1 }).params(&db).is_empty());
}

#[test]
fn type_params_report_provenance_bounds_and_defaults() {
    let db = trait_generics();
    let def = GenericDef::Trait(Trait { id: 0 });
    let self_param = TypeParam { parent: def, local_id: 0 };
    let t = TypeParam { parent: def, local_id: 1 };
    let u = TypeParam { parent: def, local_id: 3 };
    assert!(self_param.is_implicit(&db));
    assert!(!t.is_implicit(&db));
    assert_eq!(t.trait_bounds(&db), vec![Trait { id: 4 }]);
    assert_eq!(t.ty(&db), Some(Type { ty: 1, env: 5 }));
    assert_eq!(t.default(&db), None);
    assert_eq!(u.default(&db), Some(Type { ty: 1, env: 5 }));
    assert_eq!(u.merge().name(&db), Some(name(5)));
}

#[test]
fn trait_param_count_skips_implicit_and_defaulted() {
    let db = trait_generics();
    let tr = Trait { id: 0 };
    assert_eq!(tr.type_or_const_param_count(&db, false), 3);
    assert_eq!(tr.type_or_const_param_count(&db, true), 2);
    assert_eq!(Trait { id: 7 }.type_or_const_param_count(&db, false), 0);
}

#[test]
fn assoc_type_normalization_drops_unknown_results() {
    let mut db = HirDatabase::empty();
    db.tys.push(TyKind::Str); // 0
    db.tys.push(TyKind::Error); // 1
    db.normalizations.push(Normalization { alias: TypeAlias { id: 0 }, self_ty: 0, args: Vec::new(), result: 0 });
    db.normalizations.push(Normalization { alias: TypeAlias { id: 1 }, self_ty: 0, args: vec![0], result: 1 });
    let s = Type { ty: 0, env: 2 };
    assert_eq!(s.normalize_trait_assoc_type(&db, &Vec::new(), TypeAlias { id: 0 }), Some(Type { ty: 0, env: 2 }));
    assert_eq!(s.normalize_trait_assoc_type(&db, &vec![0], TypeAlias { id: 1 }), None);
    assert_eq!(s.normalize_trait_assoc_type(&db, &vec![0], TypeAlias { id: 0 }), None);
}

#[test]
fn adt_needs_arguments_for_parameters_without_defaults() {
    let mut db = trait_generics();
    let adt = Adt::Struct(Struct { id: 0 });
    assert!(!adt.has_non_default_type_params(&db));
    db.generics.push(GenericParamsData {
        owner: GenericDef::Adt(adt),
        env: 0,
        lifetimes: Vec::new(),
        type_or_consts: vec![TypeOrConstParamData::TypeParam {
            name: Some(name(8)),
            provenance: TypeParamProvenance::TypeParamList,
            ty: 1,
            default: Some(0),
            bounds: Vec::new(),
        }],
    });
    assert!(!adt.has_non_default_type_params(&db));
    db.generics[1].type_or_consts.push(TypeOrConstParamData::TypeParam {
        name: Some(name(9)),
        provenance: TypeParamProvenance::TypeParamList,
        ty: 2,
        default: None,
        bounds: Vec::new(),
    });
    assert!(adt.has_non_default_type_params(&db));
}
