use hir::db::{
    Body, BindingMode, CrateData, HirDatabase, MacroBinding, ModuleData, Name, Pat, PerNs, ScopeBinding,
    ScopeEntry, Visibility, FunctionData, ItemContainer,
};
use hir::entity::{DefWithBody, Function, Local, Macro, Module, ModuleDef, ScopeDef, Struct, Adt};

fn name(s: u32) -> Name {
    Name { symbol: s }
}

fn module(parent: Option<u32>) -> ModuleData {
    ModuleData {
        krate: 0,
        parent,
        name: parent.map(|p| name(100 + p)),
        is_inline: false,
        visibility: Visibility::Public,
        scope: Vec::new(),
        declarations: Vec::new(),
        impls: Vec::new(),
    }
}

/// root(0) -> a(1) -> b(2), and root -> c(3)
fn tree() -> HirDatabase {
    let mut db = HirDatabase::empty();
    db.crates.push(CrateData { root_module: 0, dependencies: Vec::new(), def_diagnostics: Vec::new() });
    db.modules.push(module(None));
    db.modules.push(module(Some(0)));
    db.modules.push(module(Some(1)));
    db.modules.push(module(Some(0)));
    db.modules[0].declarations = vec![ModuleDef::Module(Module { id: 1 }), ModuleDef::Module(Module { id: 3 })];
    db.modules[1].declarations = vec![ModuleDef::Module(Module { id: 2 })];
    db
}

#[test]
fn path_to_root_climbs_parents() {
    let db = tree();
    assert_eq!(Module { id: 2 }.path_to_root(&db), vec![Module { id: 2 }, Module { id: 1 }, Module { id: 0 }]);
    assert_eq!(Module { id: 2 }.crate_root(&db), Module { id: 0 });
    assert!(Module { id: 0 }.is_crate_root(&db));
    assert!(!Module { id: 3 }.is_crate_root(&db));
    assert_eq!(Module { id: 0 }.children(&db), vec![Module { id: 1 }, Module { id: 3 }]);
    assert_eq!(Module { id: 1 }.parent(&db), Some(Module { id: 0 }));
}

#[test]
fn visibility_reaches_ancestors_inside_the_restriction() {
    let db = tree();
    let crate_wide = Visibility::Module(0);
    for m in 0..4u32 {
        assert!(crate_wide.is_visible_from(&db, Module { id: m }));
    }
    let in_a = Visibility::Module(1);
    assert!(in_a.is_visible_from(&db, Module { id: 2 }));
    assert!(in_a.is_visible_from(&db, Module { id: 1 }));
    // The root is above the restriction: the item is not visible there.
    assert!(!in_a.is_visible_from(&db, Module { id: 0 }));
    assert!(!in_a.is_visible_from(&db, Module { id: 3 }));
    assert!(Visibility::Public.is_visible_from(&db, Module { id: 3 }));
}

#[test]
fn sibling_modules_declare_disjoint_items() {
    let db = tree();
    let a = Module { id: 1 }.declarations(&db);
    let c = Module { id: 3 }.declarations(&db);
    assert!(a.iter().all(|d| !c.contains(d)));
}

#[test]
fn scope_splits_namespaces_and_marks_hidden_names() {
    let mut db = tree();
    let unit = ModuleDef::Adt(Adt::Struct(Struct { id: 0 }));
    let func = ModuleDef::Function(Function { id: 0 });
    let hidden = Visibility::Module(1);
    db.modules[0].scope = vec![
        // a unit struct: type and value are the same definition
        ScopeEntry {
            name: name(1),
            def: PerNs {
                types: Some(ScopeBinding { def: unit, visibility: Visibility::Public }),
                values: Some(ScopeBinding { def: unit, visibility: Visibility::Public }),
                macros: None,
            },
        },
        // a type and a distinct value under one name, plus a macro
        ScopeEntry {
            name: name(2),
            def: PerNs {
                types: Some(ScopeBinding { def: unit, visibility: Visibility::Public }),
                values: Some(ScopeBinding { def: func, visibility: Visibility::Public }),
                macros: Some(MacroBinding { mac: Macro { id: 0 }, visibility: Visibility::Public }),
            },
        },
        // visible only inside module a
        ScopeEntry {
            name: name(3),
            def: PerNs { types: None, values: Some(ScopeBinding { def: func, visibility: hidden }), macros: None },
        },
    ];
    let from_root = Module { id: 0 }.scope(&db, Some(Module { id: 3 }));
    assert_eq!(
        from_root,
        vec![
            (name(1), ScopeDef::ModuleDef(unit)),
            (name(2), ScopeDef::ModuleDef(unit)),
            (name(2), ScopeDef::ModuleDef(func)),
            (name(2), ScopeDef::ModuleDef(ModuleDef::Macro(Macro { id: 0 }))),
            (name(3), ScopeDef::Unknown),
        ]
    );
    let unfiltered = Module { id: 0 }.scope(&db, None);
    assert_eq!(unfiltered[4], (name(3), ScopeDef::ModuleDef(func)));
    let inside = Module { id: 0 }.scope(&db, Some(Module { id: 2 }));
    assert_eq!(inside[4], (name(3), ScopeDef::ModuleDef(func)));
}

#[test]
fn representative_of_or_pattern_bindings_is_idempotent() {
    let mut db = tree();
    let mut body = Body::empty(0);
    // `Some(x) | Ok(x)` binds x twice; pattern 1 represents both.
    body.pats = vec![
        Pat::Other,
        Pat::Bind { name: name(5), mode: BindingMode::Mutable, representative: 1, is_param: false },
        Pat::Bind { name: name(5), mode: BindingMode::Mutable, representative: 1, is_param: false },
        Pat::Bind { name: name(6), mode: BindingMode::Ref, representative: 3, is_param: true },
    ];
    db.bodies.push(body);
    db.functions.push(FunctionData {
        module: 0,
        name: name(9),
        visibility: Visibility::Public,
        container: ItemContainer::Module,
        self_param: None,
        params: Vec::new(),
        ret_type: 0,
        env: 0,
        param_list: None,
        is_unsafe: false,
        is_async: false,
        is_const: false,
        body: 0,
    });
    let parent = DefWithBody::Function(Function { id: 0 });
    let second = Local { parent, pat_id: 2 };
    let rep = second.representative(&db);
    assert_eq!(rep, Local { parent, pat_id: 1 });
    assert_eq!(rep.representative(&db), rep);
    assert_eq!(second.associated_locals(&db), vec![Local { parent, pat_id: 1 }, Local { parent, pat_id: 2 }]);
    assert_eq!(second.name(&db), Some(name(5)));
    assert!(second.is_mut(&db));
    assert!(!second.is_ref(&db));
    let param = Local { parent, pat_id: 3 };
    assert!(param.is_param(&db));
    assert!(param.is_ref(&db));
    assert_eq!(param.representative(&db), param);
    assert_eq!(Local { parent, pat_id: 0 }.name(&db), None);
    db.bodies[0].pat_types = vec![0, 7, 7, 8];
    assert_eq!(second.ty(&db), Some(hir::ty::Type { ty: 7, env: 0 }));
    assert_eq!(Local { parent, pat_id: 9 }.ty(&db), None);
    assert_eq!(parent.name(&db), Some(name(9)));
    assert_eq!(parent.module(&db), Module { id: 0 });
    assert_eq!(parent.body_type(&db), Some(hir::ty::Type { ty: 0, env: 0 }));
}
