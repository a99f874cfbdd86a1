use hir::db::{
    CaseRecord, ConstData, EnumData, ImplData, TraitData, VariantData,
    AdtData, AttrSyntax, Body, BodyDiagnostic, CrateData, DefDiagnostic, DefDiagnosticKind, FieldData,
    FunctionData, HirDatabase, IncorrectCase, InferenceDiagnostic, ItemContainer, ItemSyntax,
    MacroCallKind, MacroCallSyntax, MacroKind, ModuleData, Name, PathSegmentSyntax, RecordSite,
    SourcePtr, TextRange, Token, TokenKind, TypeMismatchRecord, ValidationDiagnostic, Visibility,
};
use hir::diagnostics::{find_derive_token, missing_fields, precise_macro_call_location, AnyDiagnostic};
use hir::entity::{Adt, AssocItem, Const, DefWithBody, Enum, Function, Module, ModuleDef, Struct, Trait, VariantDef};
use hir::ty::Type;

fn name(s: u32) -> Name {
    Name { symbol: s }
}

fn range(start: u32, end: u32) -> TextRange {
    TextRange { start, end }
}

fn ptr(start: u32, end: u32) -> SourcePtr {
    SourcePtr { file: 0, range: range(start, end) }
}

fn token(kind: TokenKind, start: u32, end: u32, text: u32) -> Token {
    Token { kind, range: range(start, end), text: name(text) }
}

fn module(krate: u32, parent: Option<u32>, is_inline: bool) -> ModuleData {
    ModuleData {
        krate,
        parent,
        name: None,
        is_inline,
        visibility: Visibility::Public,
        scope: Vec::new(),
        declarations: Vec::new(),
        impls: Vec::new(),
    }
}

fn function(module: u32, body: u32) -> FunctionData {
    FunctionData {
        module,
        name: name(100 + body),
        visibility: Visibility::Public,
        container: ItemContainer::Module,
        self_param: None,
        params: Vec::new(),
        ret_type: 0,
        env: 0,
        param_list: None,
        is_unsafe: false,
        is_async: false,
        is_const: false,
        body,
    }
}

/// `#[derive(Foo, Bar)]` on item 0, with `Foo` at 9..12 and `Bar` at 14..17.
fn derive_item() -> ItemSyntax {
    ItemSyntax {
        ptr: ptr(0, 40),
        name_range: Some(range(25, 26)),
        attrs: vec![AttrSyntax {
            is_doc_comment: false,
            ptr: ptr(0, 19),
            path_name: Some(name(1)),
            tokens: vec![
                token(TokenKind::Ident, 9, 12, 10),
                token(TokenKind::Comma, 12, 13, 0),
                token(TokenKind::Ident, 14, 17, 11),
            ],
        }],
    }
}

fn one_crate_db() -> HirDatabase {
    let mut db = HirDatabase::empty();
    db.crates.push(CrateData { root_module: 0, dependencies: Vec::new(), def_diagnostics: Vec::new() });
    db.modules.push(module(0, None, false));
    db
}

#[test]
fn missing_fields_are_the_absent_declared_ones_in_order() {
    let declared = vec![name(1), name(2), name(3)];
    let present = vec![name(1)];
    assert_eq!(missing_fields(&declared, &present), vec![name(2), name(3)]);
    assert_eq!(missing_fields(&declared, &vec![name(3), name(1), name(2)]), Vec::<Name>::new());
    assert_eq!(missing_fields(&declared, &Vec::new()), declared);
}

#[test]
fn record_literal_reports_missing_fields_b_and_c() {
    let mut db = one_crate_db();
    let field = |n: u32| FieldData { name: name(n), ty: 0, visibility: Visibility::Public };
    db.structs.push(AdtData {
        module: 0,
        name: name(50),
        visibility: Visibility::Public,
        fields: vec![field(1), field(2), field(3)],
        ty: 0,
        env: 0,
        is_packed: false,
    });
    let mut body = Body::empty(0);
    body.expr_map = vec![Some(ptr(30, 40))];
    body.validation.push(ValidationDiagnostic::RecordFields {
        record: RecordSite::Expr(0),
        variant: VariantDef::Struct(Struct { id: 0 }),
        present: vec![name(1)],
    });
    db.bodies.push(body);
    db.functions.push(function(0, 0));
    let mut acc = Vec::new();
    DefWithBody::Function(Function { id: 0 }).diagnostics(&db, &mut acc);
    assert_eq!(
        acc,
        vec![AnyDiagnostic::MissingFields { record: ptr(30, 40), missed_fields: vec![name(2), name(3)] }]
    );
}

#[test]
fn malformed_derive_points_at_the_second_entry() {
    let mut db = one_crate_db();
    db.item_syntax.push(derive_item());
    db.crates[0].def_diagnostics.push(DefDiagnostic {
        in_module: 0,
        kind: DefDiagnosticKind::MalformedDerive { item: 0, attr_index: 0, derive_index: 1 },
    });
    let mut acc = Vec::new();
    Module { id: 0 }.diagnostics(&db, &mut acc);
    assert_eq!(acc, vec![AnyDiagnostic::MalformedDerive { node: ptr(0, 19), precise_location: Some(range(14, 17)) }]);
}

#[test]
fn derive_entry_lookup_skips_runs_of_commas() {
    let toks = vec![
        token(TokenKind::Ident, 0, 3, 1),
        token(TokenKind::Comma, 3, 4, 0),
        token(TokenKind::Comma, 4, 5, 0),
        token(TokenKind::Other, 5, 6, 0),
        token(TokenKind::Ident, 6, 9, 2),
    ];
    assert_eq!(find_derive_token(&toks, 0), Some(toks[0]));
    assert_eq!(find_derive_token(&toks, 1), Some(toks[4]));
    assert_eq!(find_derive_token(&toks, 2), None);
    let no_ident = vec![token(TokenKind::Other, 0, 1, 0), token(TokenKind::Comma, 1, 2, 0)];
    assert_eq!(find_derive_token(&no_ident, 0), None);
}

#[test]
fn macro_call_locations_narrow_to_the_name() {
    let mut db = one_crate_db();
    db.item_syntax.push(derive_item());
    db.macro_calls.push(MacroCallSyntax {
        ptr: ptr(50, 60),
        segment: Some(PathSegmentSyntax { name: name(7), name_range: Some(range(50, 53)) }),
    });
    let fn_like = precise_macro_call_location(&db, MacroCallKind::FnLike { call: 0 }).unwrap();
    assert_eq!(fn_like.node, ptr(50, 60));
    assert_eq!(fn_like.precise_location, Some(range(50, 53)));
    assert_eq!(fn_like.macro_name, Some(name(7)));
    assert_eq!(fn_like.kind, MacroKind::ProcMacro);
    let derive = precise_macro_call_location(&db, MacroCallKind::Derive { item: 0, attr_index: 0, derive_index: 0 }).unwrap();
    assert_eq!(derive.node, ptr(0, 40));
    assert_eq!(derive.precise_location, Some(range(9, 12)));
    assert_eq!(derive.macro_name, Some(name(10)));
    let attr = precise_macro_call_location(&db, MacroCallKind::Attr { item: 0, attr_index: 0 }).unwrap();
    assert_eq!(attr.node, ptr(0, 19));
    assert_eq!(attr.precise_location, Some(range(0, 19)));
    // An attribute index past the item's attributes falls back to the whole item.
    let missing = precise_macro_call_location(&db, MacroCallKind::Attr { item: 0, attr_index: 4 }).unwrap();
    assert_eq!(missing.node, ptr(0, 40));
    assert_eq!(missing.precise_location, None);
    let shapeless = precise_macro_call_location(&db, MacroCallKind::Derive { item: 0, attr_index: 0, derive_index: 5 }).unwrap();
    assert_eq!(shapeless.node, ptr(0, 40));
    assert_eq!(shapeless.precise_location, None);
    assert_eq!(precise_macro_call_location(&db, MacroCallKind::FnLike { call: 3 }), None);
}

#[test]
fn each_name_resolution_diagnostic_is_located() {
    let mut db = one_crate_db();
    db.item_syntax.push(derive_item());
    db.macro_calls.push(MacroCallSyntax {
        ptr: ptr(50, 60),
        segment: Some(PathSegmentSyntax { name: name(7), name_range: Some(range(50, 53)) }),
    });
    let kinds = vec![
        DefDiagnosticKind::UnresolvedModule { decl: ptr(1, 2), candidates: vec![name(3), name(4)] },
        DefDiagnosticKind::UnresolvedExternCrate { decl: ptr(2, 3) },
        DefDiagnosticKind::UnresolvedImport { decl: ptr(3, 4) },
        DefDiagnosticKind::UnconfiguredCode { node: ptr(4, 5), cfg: name(8) },
        DefDiagnosticKind::UnresolvedProcMacro { ast: MacroCallKind::Derive { item: 0, attr_index: 0, derive_index: 1 }, krate: 0 },
        DefDiagnosticKind::UnresolvedMacroCall { ast: MacroCallKind::FnLike { call: 0 }, path: name(7) },
        DefDiagnosticKind::MacroError { ast: MacroCallKind::Attr { item: 0, attr_index: 0 }, message: name(9) },
        DefDiagnosticKind::UnimplementedBuiltinMacro { item: 0 },
        DefDiagnosticKind::InvalidDeriveTarget { item: 0, attr_index: 0 },
        // Syntax that is not in the snapshot: dropped.
        DefDiagnosticKind::InvalidDeriveTarget { item: 9, attr_index: 0 },
        DefDiagnosticKind::UnresolvedMacroCall { ast: MacroCallKind::FnLike { call: 9 }, path: name(7) },
    ];
    for kind in kinds {
        db.crates[0].def_diagnostics.push(DefDiagnostic { in_module: 0, kind });
    }
    // A diagnostic of another module is not this module's.
    db.crates[0].def_diagnostics.push(DefDiagnostic {
        in_module: 1,
        kind: DefDiagnosticKind::UnresolvedImport { decl: ptr(9, 9) },
    });
    let mut acc = Vec::new();
    Module { id: 0 }.diagnostics(&db, &mut acc);
    assert_eq!(
        acc,
        vec![
            AnyDiagnostic::UnresolvedModule { decl: ptr(1, 2), candidates: vec![name(3), name(4)] },
            AnyDiagnostic::UnresolvedExternCrate { decl: ptr(2, 3) },
            AnyDiagnostic::UnresolvedImport { decl: ptr(3, 4) },
            AnyDiagnostic::InactiveCode { node: ptr(4, 5), cfg: name(8) },
            AnyDiagnostic::UnresolvedProcMacro {
                node: ptr(0, 40),
                precise_location: Some(range(14, 17)),
                macro_name: Some(name(11)),
                kind: MacroKind::Derive,
                krate: 0,
            },
            AnyDiagnostic::UnresolvedMacroCall {
                macro_call: ptr(50, 60),
                precise_location: Some(range(50, 53)),
                path: name(7),
                is_bang: true,
            },
            AnyDiagnostic::MacroError { node: ptr(0, 19), precise_location: Some(range(0, 19)), message: name(9) },
            AnyDiagnostic::UnimplementedBuiltinMacro { node: ptr(25, 26) },
            AnyDiagnostic::InvalidDeriveTarget { node: ptr(0, 19) },
        ]
    );
}

#[test]
fn synthetic_expressions_anchor_no_diagnostic() {
    let mut db = one_crate_db();
    let mut body = Body::empty(3);
    // Expression 1 was produced by desugaring and has no source.
    body.expr_map = vec![Some(ptr(10, 20)), None];
    body.inference = vec![
        InferenceDiagnostic::BreakOutsideOfLoop { expr: 1, is_break: true },
        InferenceDiagnostic::BreakOutsideOfLoop { expr: 0, is_break: false },
        InferenceDiagnostic::NoSuchField { expr: 1 },
        InferenceDiagnostic::MismatchedArgCount { call_expr: 0, expected: 2, found: 1 },
    ];
    body.mismatches = vec![
        TypeMismatchRecord { expr: 1, expected: 4, actual: 5 },
        TypeMismatchRecord { expr: 0, expected: 4, actual: 5 },
    ];
    body.unsafe_exprs = vec![1, 0];
    body.validation = vec![
        ValidationDiagnostic::ReplaceFilterMapNextWithFindMap { method_call_expr: 1 },
        ValidationDiagnostic::MissingMatchArms { match_expr: 0, uncovered_patterns: name(6) },
    ];
    body.lowering = vec![BodyDiagnostic::MacroError { node: ptr(1, 2), message: name(7) }];
    let case = IncorrectCase { ptr: ptr(0, 1), ident: name(8), suggested: name(9) };
    body.incorrect_case = vec![case];
    db.bodies.push(body);
    db.functions.push(function(0, 0));
    let diags = ModuleDef::Function(Function { id: 0 }).diagnostics(&db);
    let located = ptr(10, 20);
    assert_eq!(
        diags,
        vec![
            AnyDiagnostic::MacroError { node: ptr(1, 2), precise_location: None, message: name(7) },
            AnyDiagnostic::BreakOutsideOfLoop { expr: located, is_break: false },
            AnyDiagnostic::MismatchedArgCount { call_expr: located, expected: 2, found: 1 },
            AnyDiagnostic::TypeMismatch {
                expr: located,
                expected: Type { ty: 4, env: 3 },
                actual: Type { ty: 5, env: 3 },
            },
            AnyDiagnostic::MissingUnsafe { expr: located },
            AnyDiagnostic::MissingMatchArms { match_expr: located, uncovered_patterns: name(6) },
            AnyDiagnostic::IncorrectCase(case),
        ]
    );
}

#[test]
fn module_diagnostics_descend_into_inline_modules_only() {
    let mut db = one_crate_db();
    db.modules.push(module(0, Some(0), true));
    db.modules.push(module(0, Some(0), false));
    db.modules[0].declarations = vec![ModuleDef::Module(Module { id: 1 }), ModuleDef::Module(Module { id: 2 })];
    for m in 0..3u32 {
        db.crates[0].def_diagnostics.push(DefDiagnostic {
            in_module: m,
            kind: DefDiagnosticKind::UnresolvedImport { decl: ptr(m, m + 1) },
        });
    }
    let mut acc = Vec::new();
    Module { id: 0 }.diagnostics(&db, &mut acc);
    assert_eq!(
        acc,
        vec![
            AnyDiagnostic::UnresolvedImport { decl: ptr(0, 1) },
            AnyDiagnostic::UnresolvedImport { decl: ptr(1, 2) },
        ]
    );
    let mut file_backed = Vec::new();
    Module { id: 2 }.diagnostics(&db, &mut file_backed);
    assert_eq!(file_backed, vec![AnyDiagnostic::UnresolvedImport { decl: ptr(2, 3) }]);
}

#[test]
fn containers_report_their_own_and_their_items_diagnostics() {
    let mut db = one_crate_db();
    let unsafe_body = |at: u32| {
        let mut b = Body::empty(0);
        b.expr_map = vec![Some(ptr(at, at + 1))];
        b.unsafe_exprs = vec![0];
        b
    };
    db.bodies.push(unsafe_body(10)); // 0: default body of a trait method
    db.bodies.push(unsafe_body(20)); // 1: an impl const
    db.bodies.push(unsafe_body(30)); // 2: an enum variant's discriminant
    db.functions.push(function(0, 0));
    db.functions[0].container = ItemContainer::Trait(0);
    db.consts.push(ConstData {
        module: 0,
        name: None,
        visibility: Visibility::Public,
        container: ItemContainer::Impl(0),
        ty: 0,
        body: 1,
    });
    db.traits.push(TraitData {
        module: 0,
        name: name(60),
        visibility: Visibility::Public,
        is_auto: false,
        is_unsafe: false,
        items: vec![AssocItem::Function(Function { id: 0 })],
        diagnostics: vec![DefDiagnostic { in_module: 0, kind: DefDiagnosticKind::UnresolvedImport { decl: ptr(1, 2) } }],
    });
    db.impls.push(ImplData {
        module: 0,
        self_ty: 0,
        env: 0,
        trait_: None,
        items: vec![AssocItem::Const(Const { id: 0 })],
        is_negative: false,
        diagnostics: vec![DefDiagnostic { in_module: 0, kind: DefDiagnosticKind::UnresolvedImport { decl: ptr(2, 3) } }],
    });
    db.enums.push(EnumData { module: 0, name: name(61), visibility: Visibility::Public, variants: vec![0], ty: 0, env: 0 });
    db.variants.push(VariantData { parent: 0, name: name(62), fields: Vec::new(), body: 2 });
    let trait_case = IncorrectCase { ptr: ptr(40, 41), ident: name(60), suggested: name(63) };
    let enum_case = IncorrectCase { ptr: ptr(42, 43), ident: name(61), suggested: name(64) };
    db.case_diagnostics.push(CaseRecord { def: ModuleDef::Trait(Trait { id: 0 }), case: trait_case });
    db.case_diagnostics.push(CaseRecord { def: ModuleDef::Adt(Adt::Enum(Enum { id: 0 })), case: enum_case });
    db.modules[0].declarations = vec![ModuleDef::Trait(Trait { id: 0 }), ModuleDef::Adt(Adt::Enum(Enum { id: 0 }))];
    db.modules[0].impls = vec![0];
    let mut acc = Vec::new();
    Module { id: 0 }.diagnostics(&db, &mut acc);
    assert_eq!(
        acc,
        vec![
            AnyDiagnostic::UnresolvedImport { decl: ptr(1, 2) },
            AnyDiagnostic::MissingUnsafe { expr: ptr(10, 11) },
            AnyDiagnostic::IncorrectCase(trait_case),
            AnyDiagnostic::MissingUnsafe { expr: ptr(30, 31) },
            AnyDiagnostic::IncorrectCase(enum_case),
            AnyDiagnostic::UnresolvedImport { decl: ptr(2, 3) },
            AnyDiagnostic::MissingUnsafe { expr: ptr(20, 21) },
        ]
    );
}
