//! Turns the diagnostics of name resolution, body lowering, inference and
//! validation into one stream of located diagnostics.
use vstd::prelude::*;
use crate::db::{
    Body, BodyDiagnostic, InferenceDiagnostic, RecordSite, TypeMismatchRecord, ValidationDiagnostic,
    AttrSyntax, DefDiagnostic, DefDiagnosticKind, HirDatabase, IncorrectCase, MacroCallKind,
    MacroKind, Name, SourcePtr, TextRange, Token, TokenKind,
};
use crate::db::CaseRecord;
use crate::entity::{Adt, AssocItem, DefWithBody, Module, ModuleDef, VariantDef};
use crate::ty::Type;

verus! {

/// A located diagnostic, ready for presentation.
#[derive(Clone, Debug, PartialEq, Eq)]
pub enum AnyDiagnostic {
    UnresolvedModule { decl: SourcePtr, candidates: Vec<Name> },
    UnresolvedExternCrate { decl: SourcePtr },
    UnresolvedImport { decl: SourcePtr },
    InactiveCode { node: SourcePtr, cfg: Name },
    UnresolvedProcMacro {
        node: SourcePtr,
        precise_location: Option<TextRange>,
        macro_name: Option<Name>,
        kind: MacroKind,
        krate: u32,
    },
    UnresolvedMacroCall {
        macro_call: SourcePtr,
        precise_location: Option<TextRange>,
        path: Name,
        is_bang: bool,
    },
    MacroError { node: SourcePtr, precise_location: Option<TextRange>, message: Name },
    UnimplementedBuiltinMacro { node: SourcePtr },
    InvalidDeriveTarget { node: SourcePtr },
    MalformedDerive { node: SourcePtr, precise_location: Option<TextRange> },
    NoSuchField { field: SourcePtr },
    BreakOutsideOfLoop { expr: SourcePtr, is_break: bool },
    MismatchedArgCount { call_expr: SourcePtr, expected: u32, found: u32 },
    TypeMismatch { expr: SourcePtr, expected: Type, actual: Type },
    MissingUnsafe { expr: SourcePtr },
    MissingFields { record: SourcePtr, missed_fields: Vec<Name> },
    ReplaceFilterMapNextWithFindMap { next_expr: SourcePtr },
    MissingMatchArms { match_expr: SourcePtr, uncovered_patterns: Name },
    IncorrectCase(IncorrectCase),
}

/// The mathematical value of an [`AnyDiagnostic`]: name lists become sequences.
pub ghost enum DiagnosticView {
    UnresolvedModule { decl: SourcePtr, candidates: Seq<Name> },
    UnresolvedExternCrate { decl: SourcePtr },
    UnresolvedImport { decl: SourcePtr },
    InactiveCode { node: SourcePtr, cfg: Name },
    UnresolvedProcMacro {
        node: SourcePtr,
        precise_location: Option<TextRange>,
        macro_name: Option<Name>,
        kind: MacroKind,
        krate: u32,
    },
    UnresolvedMacroCall {
        macro_call: SourcePtr,
        precise_location: Option<TextRange>,
        path: Name,
        is_bang: bool,
    },
    MacroError { node: SourcePtr, precise_location: Option<TextRange>, message: Name },
    UnimplementedBuiltinMacro { node: SourcePtr },
    InvalidDeriveTarget { node: SourcePtr },
    MalformedDerive { node: SourcePtr, precise_location: Option<TextRange> },
    NoSuchField { field: SourcePtr },
    BreakOutsideOfLoop { expr: SourcePtr, is_break: bool },
    MismatchedArgCount { call_expr: SourcePtr, expected: u32, found: u32 },
    TypeMismatch { expr: SourcePtr, expected: Type, actual: Type },
    MissingUnsafe { expr: SourcePtr },
    MissingFields { record: SourcePtr, missed_fields: Seq<Name> },
    ReplaceFilterMapNextWithFindMap { next_expr: SourcePtr },
    MissingMatchArms { match_expr: SourcePtr, uncovered_patterns: Name },
    IncorrectCase(IncorrectCase),
}

impl View for AnyDiagnostic {
    type V = DiagnosticView;

    open spec fn view(&self) -> DiagnosticView {
        match *self {
            AnyDiagnostic::UnresolvedModule { decl, candidates } => DiagnosticView::UnresolvedModule {
                decl,
                candidates: candidates@,
            },
            AnyDiagnostic::UnresolvedExternCrate { decl } => DiagnosticView::UnresolvedExternCrate {
                decl,
            },
            AnyDiagnostic::UnresolvedImport { decl } => DiagnosticView::UnresolvedImport { decl },
            AnyDiagnostic::InactiveCode { node, cfg } => DiagnosticView::InactiveCode { node, cfg },
            AnyDiagnostic::UnresolvedProcMacro {
                node,
                precise_location,
                macro_name,
                kind,
                krate,
            } => DiagnosticView::UnresolvedProcMacro {
                node,
                precise_location,
                macro_name,
                kind,
                krate,
            },
            AnyDiagnostic::UnresolvedMacroCall {
                macro_call,
                precise_location,
                path,
                is_bang,
            } => DiagnosticView::UnresolvedMacroCall { macro_call, precise_location, path, is_bang },
            AnyDiagnostic::MacroError { node, precise_location, message } => DiagnosticView::MacroError {
                node,
                precise_location,
                message,
            },
            AnyDiagnostic::UnimplementedBuiltinMacro { node } => DiagnosticView::UnimplementedBuiltinMacro {
                node,
            },
            AnyDiagnostic::InvalidDeriveTarget { node } => DiagnosticView::InvalidDeriveTarget { node },
            AnyDiagnostic::MalformedDerive { node, precise_location } => DiagnosticView::MalformedDerive {
                node,
                precise_location,
            },
            AnyDiagnostic::NoSuchField { field } => DiagnosticView::NoSuchField { field },
            AnyDiagnostic::BreakOutsideOfLoop { expr, is_break } => DiagnosticView::BreakOutsideOfLoop {
                expr,
                is_break,
            },
            AnyDiagnostic::MismatchedArgCount { call_expr, expected, found } => DiagnosticView::MismatchedArgCount {
                call_expr,
                expected,
                found,
            },
            AnyDiagnostic::TypeMismatch { expr, expected, actual } => DiagnosticView::TypeMismatch {
                expr,
                expected,
                actual,
            },
            AnyDiagnostic::MissingUnsafe { expr } => DiagnosticView::MissingUnsafe { expr },
            AnyDiagnostic::MissingFields { record, missed_fields } => DiagnosticView::MissingFields {
                record,
                missed_fields: missed_fields@,
            },
            AnyDiagnostic::ReplaceFilterMapNextWithFindMap {
                next_expr,
            } => DiagnosticView::ReplaceFilterMapNextWithFindMap { next_expr },
            AnyDiagnostic::MissingMatchArms {
                match_expr,
                uncovered_patterns,
            } => DiagnosticView::MissingMatchArms { match_expr, uncovered_patterns },
            AnyDiagnostic::IncorrectCase(c) => DiagnosticView::IncorrectCase(c),
        }
    }
}

/// The views of a sequence of diagnostics.
pub open spec fn views(s: Seq<AnyDiagnostic>) -> Seq<DiagnosticView> {
    s.map_values(|d: AnyDiagnostic| d@)
}

pub proof fn lemma_emitted_step<A>(s: Seq<A>, i: int, f: spec_fn(A) -> Option<DiagnosticView>)
    requires
        0 <= i < s.len(),
    ensures
        s.take(i + 1).filter_map(f) == s.take(i).filter_map(f) + opt_seq(f(s[i])),
{
    assert(s.take(i + 1).drop_last() =~= s.take(i));
    assert(s.take(i).filter_map(f) + opt_seq(f(s[i])) =~= s.take(i + 1).filter_map(f));
}

pub proof fn lemma_views_push(s: Seq<AnyDiagnostic>, d: AnyDiagnostic)
    ensures
        views(s.push(d)) == views(s).push(d@),
{
    assert(views(s.push(d)) =~= views(s).push(d@));
}


/// The first identifier of the `n`-th comma-separated entry, scanning from
/// position `i`, having started `runs` entries so far (`in_run`: position `i`
/// continues the last of them).
pub open spec fn derive_token_from(toks: Seq<Token>, i: int, runs: int, in_run: bool, n: int) -> Option<Token>
    decreases toks.len() - i,
{
    if i < 0 || i >= toks.len() {
        None
    } else if toks[i].kind == TokenKind::Comma {
        derive_token_from(toks, i + 1, runs, false, n)
    } else {
        let runs2 = if in_run { runs } else { runs + 1 };
        if runs2 - 1 == n && toks[i].kind == TokenKind::Ident {
            Some(toks[i])
        } else if runs2 - 1 > n {
            None
        } else {
            derive_token_from(toks, i + 1, runs2, true, n)
        }
    }
}

/// The identifier token naming entry `n` of a derive attribute's list.
pub open spec fn derive_token(toks: Seq<Token>, n: int) -> Option<Token> {
    derive_token_from(toks, 0, 0, false, n)
}

/// Finds the identifier of the `n`-th entry of a comma-separated list;
/// runs of commas separate entries, and an entry with no identifier gives none.
pub fn find_derive_token(toks: &Vec<Token>, n: u32) -> (r: Option<Token>)
    ensures
        r == derive_token(toks@, n as int),
{
    let mut i: usize = 0;
    let mut runs: usize = 0;
    let mut in_run = false;
    while i < toks.len()
        invariant
            0 <= i <= toks@.len(),
            runs <= i,
            in_run ==> runs >= 1,
            derive_token_from(toks@, i as int, runs as int, in_run, n as int) == derive_token(toks@, n as int),
        decreases toks@.len() - i,
    {
        let t = toks[i];
        if t.kind == TokenKind::Comma {
            in_run = false;
        } else {
            if !in_run {
                runs = runs + 1;
            }
            in_run = true;
            if runs - 1 == n as usize && t.kind == TokenKind::Ident {
                return Some(t);
            } else if runs - 1 > n as usize {
                return None;
            }
        }
        i = i + 1;
    }
    None
}

/// Where a macro invocation is reported: the whole invocation node, a
/// narrower range inside it when one is found, the macro's name and kind.
#[derive(Clone, Copy, Debug, PartialEq, Eq, Structural)]
pub struct MacroCallLocation {
    pub node: SourcePtr,
    pub precise_location: Option<TextRange>,
    pub macro_name: Option<Name>,
    pub kind: MacroKind,
}

/// The attribute `index` of `attrs`, counting doc comments, when it is an attribute.
pub open spec fn attr_at(attrs: Seq<AttrSyntax>, index: int) -> Option<AttrSyntax> {
    if 0 <= index < attrs.len() && !attrs[index].is_doc_comment {
        Some(attrs[index])
    } else {
        None
    }
}

pub open spec fn macro_call_location(db: &HirDatabase, ast: MacroCallKind) -> Option<MacroCallLocation> {
    match ast {
        MacroCallKind::FnLike { call } => if call < db.macro_calls@.len() {
            let c = db.macro_calls@[call as int];
            Some(MacroCallLocation {
                node: c.ptr,
                precise_location: match c.segment {
                    Some(seg) => seg.name_range,
                    None => None,
                },
                macro_name: match c.segment {
                    Some(seg) => Some(seg.name),
                    None => None,
                },
                kind: MacroKind::ProcMacro,
            })
        } else {
            None
        },
        MacroCallKind::Derive { item, attr_index, derive_index } => if item < db.item_syntax@.len() {
            let it = db.item_syntax@[item as int];
            let tok = match attr_at(it.attrs@, attr_index as int) {
                Some(a) => derive_token(a.tokens@, derive_index as int),
                None => None,
            };
            Some(MacroCallLocation {
                node: it.ptr,
                precise_location: match tok {
                    Some(t) => Some(t.range),
                    None => None,
                },
                macro_name: match tok {
                    Some(t) => Some(t.text),
                    None => None,
                },
                kind: MacroKind::Derive,
            })
        } else {
            None
        },
        MacroCallKind::Attr { item, attr_index } => if item < db.item_syntax@.len() {
            let it = db.item_syntax@[item as int];
            match attr_at(it.attrs@, attr_index as int) {
                Some(a) => Some(MacroCallLocation {
                    node: a.ptr,
                    precise_location: Some(a.ptr.range),
                    macro_name: a.path_name,
                    kind: MacroKind::Attr,
                }),
                None => Some(MacroCallLocation {
                    node: it.ptr,
                    precise_location: None,
                    macro_name: None,
                    kind: MacroKind::Attr,
                }),
            }
        } else {
            None
        },
    }
}

/// Narrows a macro invocation to the token that names the macro: the path
/// segment of a function-like call, the entry of a derive list, or the
/// attribute of an attribute macro. `None` when the invocation's syntax is
/// not in the snapshot.
pub fn precise_macro_call_location(db: &HirDatabase, ast: MacroCallKind) -> (r: Option<MacroCallLocation>)
    ensures
        r == macro_call_location(db, ast),
{
    match ast {
        MacroCallKind::FnLike { call } => {
            if (call as usize) < db.macro_calls.len() {
                let c = &db.macro_calls[call as usize];
                let (precise_location, macro_name) = match c.segment {
                    Some(seg) => (seg.name_range, Some(seg.name)),
                    None => (None, None),
                };
                Some(MacroCallLocation { node: c.ptr, precise_location, macro_name, kind: MacroKind::ProcMacro })
            } else {
                None
            }
        },
        MacroCallKind::Derive { item, attr_index, derive_index } => {
            if (item as usize) < db.item_syntax.len() {
                let it = &db.item_syntax[item as usize];
                let ai = attr_index as usize;
                let tok = if ai < it.attrs.len() && !it.attrs[ai].is_doc_comment {
                    find_derive_token(&it.attrs[ai].tokens, derive_index)
                } else {
                    None
                };
                let (precise_location, macro_name) = match tok {
                    Some(t) => (Some(t.range), Some(t.text)),
                    None => (None, None),
                };
                Some(MacroCallLocation { node: it.ptr, precise_location, macro_name, kind: MacroKind::Derive })
            } else {
                None
            }
        },
        MacroCallKind::Attr { item, attr_index } => {
            if (item as usize) < db.item_syntax.len() {
                let it = &db.item_syntax[item as usize];
                let ai = attr_index as usize;
                if ai < it.attrs.len() && !it.attrs[ai].is_doc_comment {
                    let a = &it.attrs[ai];
                    Some(MacroCallLocation {
                        node: a.ptr,
                        precise_location: Some(a.ptr.range),
                        macro_name: a.path_name,
                        kind: MacroKind::Attr,
                    })
                } else {
                    Some(MacroCallLocation { node: it.ptr, precise_location: None, macro_name: None, kind: MacroKind::Attr })
                }
            } else {
                None
            }
        },
    }
}


/// The sequence holding `d`, if any.
pub open spec fn opt_seq(d: Option<DiagnosticView>) -> Seq<DiagnosticView> {
    match d {
        Some(v) => seq![v],
        None => Seq::empty(),
    }
}

/// A located diagnostic for a name-resolution diagnostic, or `None` where its
/// syntax cannot be found.
pub open spec fn def_diagnostic_view(db: &HirDatabase, d: DefDiagnostic) -> Option<DiagnosticView> {
    match d.kind {
        DefDiagnosticKind::UnresolvedModule { decl, candidates } => Some(
            DiagnosticView::UnresolvedModule { decl, candidates: candidates@ },
        ),
        DefDiagnosticKind::UnresolvedExternCrate { decl } => Some(
            DiagnosticView::UnresolvedExternCrate { decl },
        ),
        DefDiagnosticKind::UnresolvedImport { decl } => Some(DiagnosticView::UnresolvedImport { decl }),
        DefDiagnosticKind::UnconfiguredCode { node, cfg } => Some(
            DiagnosticView::InactiveCode { node, cfg },
        ),
        DefDiagnosticKind::UnresolvedProcMacro { ast, krate } => match macro_call_location(db, ast) {
            Some(loc) => Some(
                DiagnosticView::UnresolvedProcMacro {
                    node: loc.node,
                    precise_location: loc.precise_location,
                    macro_name: loc.macro_name,
                    kind: loc.kind,
                    krate,
                },
            ),
            None => None,
        },
        DefDiagnosticKind::UnresolvedMacroCall { ast, path } => match macro_call_location(db, ast) {
            Some(loc) => Some(
                DiagnosticView::UnresolvedMacroCall {
                    macro_call: loc.node,
                    precise_location: loc.precise_location,
                    path,
                    is_bang: ast is FnLike,
                },
            ),
            None => None,
        },
        DefDiagnosticKind::MacroError { ast, message } => match macro_call_location(db, ast) {
            Some(loc) => Some(
                DiagnosticView::MacroError { node: loc.node, precise_location: loc.precise_location, message },
            ),
            None => None,
        },
        DefDiagnosticKind::UnimplementedBuiltinMacro { item } => if item < db.item_syntax@.len() {
            let it = db.item_syntax@[item as int];
            match it.name_range {
                Some(range) => Some(
                    DiagnosticView::UnimplementedBuiltinMacro { node: SourcePtr { file: it.ptr.file, range } },
                ),
                None => None,
            }
        } else {
            None
        },
        DefDiagnosticKind::InvalidDeriveTarget { item, attr_index } => if item < db.item_syntax@.len() {
            match attr_at(db.item_syntax@[item as int].attrs@, attr_index as int) {
                Some(a) => Some(DiagnosticView::InvalidDeriveTarget { node: a.ptr }),
                None => None,
            }
        } else {
            None
        },
        DefDiagnosticKind::MalformedDerive { item, attr_index, derive_index } => if item
            < db.item_syntax@.len() {
            match attr_at(db.item_syntax@[item as int].attrs@, attr_index as int) {
                Some(a) => Some(
                    DiagnosticView::MalformedDerive {
                        node: a.ptr,
                        precise_location: match derive_token(a.tokens@, derive_index as int) {
                            Some(t) => Some(t.range),
                            None => None,
                        },
                    },
                ),
                None => None,
            }
        } else {
            None
        },
    }
}

pub fn copy_names(v: &Vec<Name>) -> (r: Vec<Name>)
    ensures
        r@ == v@,
{
    let mut r: Vec<Name> = Vec::new();
    let mut i: usize = 0;
    while i < v.len()
        invariant
            i <= v@.len(),
            r@ == v@.take(i as int),
        decreases v@.len() - i,
    {
        r.push(v[i]);
        i = i + 1;
        assert(r@ =~= v@.take(i as int));
    }
    assert(v@.take(i as int) =~= v@);
    r
}

pub fn push_diagnostic(acc: &mut Vec<AnyDiagnostic>, d: AnyDiagnostic)
    ensures
        views(final(acc)@) == views(old(acc)@).push(d@),
{
    proof {
        lemma_views_push(old(acc)@, d);
    }
    acc.push(d);
}

/// Locates one name-resolution diagnostic and appends it to `acc`; one whose
/// syntax cannot be found is left out.
pub fn emit_def_diagnostic(db: &HirDatabase, acc: &mut Vec<AnyDiagnostic>, diag: &DefDiagnostic)
    ensures
        views(final(acc)@) == views(old(acc)@) + opt_seq(def_diagnostic_view(db, *diag)),
{
    let ghost expected = def_diagnostic_view(db, *diag);
    let d: Option<AnyDiagnostic> = match &diag.kind {
        DefDiagnosticKind::UnresolvedModule { decl, candidates } => Some(
            AnyDiagnostic::UnresolvedModule { decl: *decl, candidates: copy_names(candidates) },
        ),
        DefDiagnosticKind::UnresolvedExternCrate { decl } => Some(
            AnyDiagnostic::UnresolvedExternCrate { decl: *decl },
        ),
        DefDiagnosticKind::UnresolvedImport { decl } => Some(AnyDiagnostic::UnresolvedImport { decl: *decl }),
        DefDiagnosticKind::UnconfiguredCode { node, cfg } => Some(
            AnyDiagnostic::InactiveCode { node: *node, cfg: *cfg },
        ),
        DefDiagnosticKind::UnresolvedProcMacro { ast, krate } => match precise_macro_call_location(db, *ast) {
            Some(loc) => Some(
                AnyDiagnostic::UnresolvedProcMacro {
                    node: loc.node,
                    precise_location: loc.precise_location,
                    macro_name: loc.macro_name,
                    kind: loc.kind,
                    krate: *krate,
                },
            ),
            None => None,
        },
        DefDiagnosticKind::UnresolvedMacroCall { ast, path } => match precise_macro_call_location(db, *ast) {
            Some(loc) => Some(
                AnyDiagnostic::UnresolvedMacroCall {
                    macro_call: loc.node,
                    precise_location: loc.precise_location,
                    path: *path,
                    is_bang: match ast {
                        MacroCallKind::FnLike { .. } => true,
                        _ => false,
                    },
                },
            ),
            None => None,
        },
        DefDiagnosticKind::MacroError { ast, message } => match precise_macro_call_location(db, *ast) {
            Some(loc) => Some(
                AnyDiagnostic::MacroError {
                    node: loc.node,
                    precise_location: loc.precise_location,
                    message: *message,
                },
            ),
            None => None,
        },
        DefDiagnosticKind::UnimplementedBuiltinMacro { item } => {
            if (*item as usize) < db.item_syntax.len() {
                let it = &db.item_syntax[*item as usize];
                match it.name_range {
                    Some(range) => Some(
                        AnyDiagnostic::UnimplementedBuiltinMacro {
                            node: SourcePtr { file: it.ptr.file, range },
                        },
                    ),
                    None => None,
                }
            } else {
                None
            }
        },
        DefDiagnosticKind::InvalidDeriveTarget { item, attr_index } => {
            let ai = *attr_index as usize;
            if (*item as usize) < db.item_syntax.len() && ai < db.item_syntax[*item as usize].attrs.len()
                && !db.item_syntax[*item as usize].attrs[ai].is_doc_comment {
                Some(AnyDiagnostic::InvalidDeriveTarget { node: db.item_syntax[*item as usize].attrs[ai].ptr })
            } else {
                None
            }
        },
        DefDiagnosticKind::MalformedDerive { item, attr_index, derive_index } => {
            let ai = *attr_index as usize;
            if (*item as usize) < db.item_syntax.len() && ai < db.item_syntax[*item as usize].attrs.len()
                && !db.item_syntax[*item as usize].attrs[ai].is_doc_comment {
                let a = &db.item_syntax[*item as usize].attrs[ai];
                let precise_location = match find_derive_token(&a.tokens, *derive_index) {
                    Some(t) => Some(t.range),
                    None => None,
                };
                Some(AnyDiagnostic::MalformedDerive { node: a.ptr, precise_location })
            } else {
                None
            }
        },
    };
    match d {
        Some(d) => {
            assert(Some(d@) == expected);
            push_diagnostic(acc, d);
            assert(opt_seq(expected) == seq![d@]);
        },
        None => {
            assert(expected is None);
            assert(views(acc@) + opt_seq(expected) =~= views(acc@));
        },
    }
}


/// The declared fields that a record leaves out, in declaration order.
pub open spec fn missing_fields_spec(declared: Seq<Name>, present: Seq<Name>) -> Seq<Name> {
    declared.filter(|n: Name| !present.contains(n))
}

pub fn contains_name(v: &Vec<Name>, n: Name) -> (r: bool)
    ensures
        r == v@.contains(n),
{
    let mut i: usize = 0;
    while i < v.len()
        invariant
            i <= v@.len(),
            forall|j: int| 0 <= j < i ==> v@[j] != n,
        decreases v@.len() - i,
    {
        if v[i] == n {
            return true;
        }
        i = i + 1;
    }
    false
}

/// The names of `declared` that `present` lacks, keeping the order of `declared`.
pub fn missing_fields(declared: &Vec<Name>, present: &Vec<Name>) -> (r: Vec<Name>)
    ensures
        r@ == missing_fields_spec(declared@, present@),
{
    let ghost pred = |n: Name| !present@.contains(n);
    let mut r: Vec<Name> = Vec::new();
    let mut i: usize = 0;
    while i < declared.len()
        invariant
            i <= declared@.len(),
            pred == (|n: Name| !present@.contains(n)),
            r@ == declared@.take(i as int).filter(pred),
        decreases declared@.len() - i,
    {
        let n = declared[i];
        let here = contains_name(present, n);
        proof {
            reveal(Seq::filter);
            assert(declared@.take(i + 1).drop_last() =~= declared@.take(i as int));
        }
        if !here {
            r.push(n);
        }
        i = i + 1;
    }
    assert(declared@.take(i as int) =~= declared@);
    r
}

/// The source of expression `e`, or `None` for a synthesised one.
pub open spec fn expr_source(b: &Body, e: u32) -> Option<SourcePtr> {
    if e < b.expr_map@.len() {
        b.expr_map@[e as int]
    } else {
        None
    }
}

pub open spec fn pat_source(b: &Body, p: u32) -> Option<SourcePtr> {
    if p < b.pat_map@.len() {
        b.pat_map@[p as int]
    } else {
        None
    }
}

pub fn expr_syntax(b: &Body, e: u32) -> (r: Option<SourcePtr>)
    ensures
        r == expr_source(b, e),
{
    if (e as usize) < b.expr_map.len() {
        b.expr_map[e as usize]
    } else {
        None
    }
}

pub fn pat_syntax(b: &Body, p: u32) -> (r: Option<SourcePtr>)
    ensures
        r == pat_source(b, p),
{
    if (p as usize) < b.pat_map.len() {
        b.pat_map[p as usize]
    } else {
        None
    }
}

pub open spec fn lowering_view(d: BodyDiagnostic) -> Option<DiagnosticView> {
    Some(
        match d {
            BodyDiagnostic::InactiveCode { node, cfg } => DiagnosticView::InactiveCode { node, cfg },
            BodyDiagnostic::MacroError { node, message } => DiagnosticView::MacroError {
                node,
                precise_location: None,
                message,
            },
            BodyDiagnostic::UnresolvedProcMacro { node, krate } => DiagnosticView::UnresolvedProcMacro {
                node,
                precise_location: None,
                macro_name: None,
                kind: MacroKind::ProcMacro,
                krate,
            },
            BodyDiagnostic::UnresolvedMacroCall { node, path } => DiagnosticView::UnresolvedMacroCall {
                macro_call: node,
                precise_location: None,
                path,
                is_bang: true,
            },
        },
    )
}

pub open spec fn inference_view(b: &Body, d: InferenceDiagnostic) -> Option<DiagnosticView> {
    match d {
        InferenceDiagnostic::NoSuchField { expr } => match expr_source(b, expr) {
            Some(field) => Some(DiagnosticView::NoSuchField { field }),
            None => None,
        },
        InferenceDiagnostic::BreakOutsideOfLoop { expr, is_break } => match expr_source(b, expr) {
            Some(e) => Some(DiagnosticView::BreakOutsideOfLoop { expr: e, is_break }),
            None => None,
        },
        InferenceDiagnostic::MismatchedArgCount { call_expr, expected, found } => match expr_source(
            b,
            call_expr,
        ) {
            Some(e) => Some(DiagnosticView::MismatchedArgCount { call_expr: e, expected, found }),
            None => None,
        },
    }
}

pub open spec fn mismatch_view(b: &Body, m: TypeMismatchRecord) -> Option<DiagnosticView> {
    match expr_source(b, m.expr) {
        Some(e) => Some(
            DiagnosticView::TypeMismatch {
                expr: e,
                expected: Type { ty: m.expected, env: b.env },
                actual: Type { ty: m.actual, env: b.env },
            },
        ),
        None => None,
    }
}

pub open spec fn unsafe_view(b: &Body, e: u32) -> Option<DiagnosticView> {
    match expr_source(b, e) {
        Some(p) => Some(DiagnosticView::MissingUnsafe { expr: p }),
        None => None,
    }
}


/// The declared field names of a struct, union or enum variant.
pub open spec fn variant_field_names(db: &HirDatabase, v: VariantDef) -> Option<Seq<Name>> {
    match v {
        VariantDef::Struct(s) => if s.id < db.structs@.len() {
            Some(db.structs@[s.id as int].fields@.map_values(|f: crate::db::FieldData| f.name))
        } else {
            None
        },
        VariantDef::Union(u) => if u.id < db.unions@.len() {
            Some(db.unions@[u.id as int].fields@.map_values(|f: crate::db::FieldData| f.name))
        } else {
            None
        },
        VariantDef::Variant(x) => if x.id < db.variants@.len() {
            Some(db.variants@[x.id as int].fields@.map_values(|f: crate::db::FieldData| f.name))
        } else {
            None
        },
    }
}

fn names_of_fields(fields: &Vec<crate::db::FieldData>) -> (r: Vec<Name>)
    ensures
        r@ == fields@.map_values(|f: crate::db::FieldData| f.name),
{
    let mut r: Vec<Name> = Vec::new();
    let mut i: usize = 0;
    while i < fields.len()
        invariant
            i <= fields@.len(),
            r@ == fields@.take(i as int).map_values(|f: crate::db::FieldData| f.name),
        decreases fields@.len() - i,
    {
        r.push(fields[i].name);
        i = i + 1;
        assert(r@ =~= fields@.take(i as int).map_values(|f: crate::db::FieldData| f.name));
    }
    assert(fields@.take(i as int) =~= fields@);
    r
}

pub fn field_names(db: &HirDatabase, v: VariantDef) -> (r: Option<Vec<Name>>)
    ensures
        match r {
            Some(names) => variant_field_names(db, v) == Some(names@),
            None => variant_field_names(db, v) is None,
        },
{
    match v {
        VariantDef::Struct(s) => if (s.id as usize) < db.structs.len() {
            Some(names_of_fields(&db.structs[s.id as usize].fields))
        } else {
            None
        },
        VariantDef::Union(u) => if (u.id as usize) < db.unions.len() {
            Some(names_of_fields(&db.unions[u.id as usize].fields))
        } else {
            None
        },
        VariantDef::Variant(x) => if (x.id as usize) < db.variants.len() {
            Some(names_of_fields(&db.variants[x.id as usize].fields))
        } else {
            None
        },
    }
}

pub open spec fn record_source(b: &Body, site: RecordSite) -> Option<SourcePtr> {
    match site {
        RecordSite::Expr(e) => expr_source(b, e),
        RecordSite::Pat(p) => pat_source(b, p),
    }
}

pub open spec fn validation_view(db: &HirDatabase, b: &Body, d: ValidationDiagnostic) -> Option<DiagnosticView> {
    match d {
        ValidationDiagnostic::RecordFields { record, variant, present } => match (
            record_source(b, record),
            variant_field_names(db, variant),
        ) {
            (Some(ptr), Some(declared)) => {
                let missed = missing_fields_spec(declared, present@);
                if missed.len() > 0 {
                    Some(DiagnosticView::MissingFields { record: ptr, missed_fields: missed })
                } else {
                    None
                }
            },
            _ => None,
        },
        ValidationDiagnostic::ReplaceFilterMapNextWithFindMap { method_call_expr } => match expr_source(
            b,
            method_call_expr,
        ) {
            Some(p) => Some(DiagnosticView::ReplaceFilterMapNextWithFindMap { next_expr: p }),
            None => None,
        },
        ValidationDiagnostic::MissingMatchArms { match_expr, uncovered_patterns } => match expr_source(
            b,
            match_expr,
        ) {
            Some(p) => Some(DiagnosticView::MissingMatchArms { match_expr: p, uncovered_patterns }),
            None => None,
        },
    }
}

pub open spec fn case_view(c: IncorrectCase) -> Option<DiagnosticView> {
    Some(DiagnosticView::IncorrectCase(c))
}

/// Everything reported for one body, stage after stage: diagnostics of the
/// block scopes inside it, of lowering, of inference, type mismatches, missing
/// unsafe contexts, validation and naming conventions. Nodes that lowering
/// synthesised anchor nothing.
pub open spec fn body_diagnostics(db: &HirDatabase, b: &Body) -> Seq<DiagnosticView> {
    b.block_diagnostics@.filter_map(|d: DefDiagnostic| def_diagnostic_view(db, d))
        + b.lowering@.filter_map(|d: BodyDiagnostic| lowering_view(d))
        + b.inference@.filter_map(|d: InferenceDiagnostic| inference_view(b, d))
        + b.mismatches@.filter_map(|m: TypeMismatchRecord| mismatch_view(b, m))
        + b.unsafe_exprs@.filter_map(|e: u32| unsafe_view(b, e))
        + b.validation@.filter_map(|d: ValidationDiagnostic| validation_view(db, b, d))
        + b.incorrect_case@.filter_map(|c: IncorrectCase| case_view(c))
}


fn emit_lowering_diagnostics(b: &Body, acc: &mut Vec<AnyDiagnostic>)
    ensures
        views(final(acc)@) == views(old(acc)@) + b.lowering@.filter_map(|d: BodyDiagnostic| lowering_view(d)),
{
    let ghost acc0 = views(acc@);
    let mut i: usize = 0;
    while i < b.lowering.len()
        invariant
            i <= b.lowering@.len(),
            views(acc@) == acc0 + b.lowering@.take(i as int).filter_map(|d: BodyDiagnostic| lowering_view(d)),
        decreases b.lowering@.len() - i,
    {
        let ghost before = views(acc@);
        let d = match &b.lowering[i] {
            BodyDiagnostic::InactiveCode { node, cfg } => AnyDiagnostic::InactiveCode { node: *node, cfg: *cfg },
            BodyDiagnostic::MacroError { node, message } => AnyDiagnostic::MacroError {
                node: *node,
                precise_location: None,
                message: *message,
            },
            BodyDiagnostic::UnresolvedProcMacro { node, krate } => AnyDiagnostic::UnresolvedProcMacro {
                node: *node,
                precise_location: None,
                macro_name: None,
                kind: MacroKind::ProcMacro,
                krate: *krate,
            },
            BodyDiagnostic::UnresolvedMacroCall { node, path } => AnyDiagnostic::UnresolvedMacroCall {
                macro_call: *node,
                precise_location: None,
                path: *path,
                is_bang: true,
            },
        };
        push_diagnostic(acc, d);
        assert(views(acc@) =~= before + opt_seq(lowering_view(b.lowering@[i as int])));
        proof {
            lemma_emitted_step(b.lowering@, i as int, |d: BodyDiagnostic| lowering_view(d));
            assert(views(acc@) == acc0 + b.lowering@.take(i + 1).filter_map(|d: BodyDiagnostic| lowering_view(d)));
        }
        i = i + 1;
    }
    assert(b.lowering@.take(i as int) =~= b.lowering@);
}

fn emit_inference_diagnostics(b: &Body, acc: &mut Vec<AnyDiagnostic>)
    ensures
        views(final(acc)@) == views(old(acc)@) + b.inference@.filter_map(|d: InferenceDiagnostic| inference_view(b, d)),
{
    let ghost acc0 = views(acc@);
    let mut i: usize = 0;
    while i < b.inference.len()
        invariant
            i <= b.inference@.len(),
            views(acc@) == acc0 + b.inference@.take(i as int).filter_map(|d: InferenceDiagnostic| inference_view(b, d)),
        decreases b.inference@.len() - i,
    {
        let ghost before = views(acc@);
        let d = match b.inference[i] {
            InferenceDiagnostic::NoSuchField { expr } => match expr_syntax(b, expr) {
                Some(field) => Some(AnyDiagnostic::NoSuchField { field }),
                None => None,
            },
            InferenceDiagnostic::BreakOutsideOfLoop { expr, is_break } => match expr_syntax(b, expr) {
                Some(e) => Some(AnyDiagnostic::BreakOutsideOfLoop { expr: e, is_break }),
                None => None,
            },
            InferenceDiagnostic::MismatchedArgCount { call_expr, expected, found } => match expr_syntax(b, call_expr) {
                Some(e) => Some(AnyDiagnostic::MismatchedArgCount { call_expr: e, expected, found }),
                None => None,
            },
        };
        match d {
            Some(d) => {
                push_diagnostic(acc, d);
                assert(views(acc@) =~= before + opt_seq(inference_view(b, b.inference@[i as int])));
            },
            None => {
                assert(views(acc@) =~= before + opt_seq(inference_view(b, b.inference@[i as int])));
            },
        }
        proof {
            lemma_emitted_step(b.inference@, i as int, |d: InferenceDiagnostic| inference_view(b, d));
            assert(views(acc@) == acc0 + b.inference@.take(i + 1).filter_map(|d: InferenceDiagnostic| inference_view(b, d)));
        }
        i = i + 1;
    }
    assert(b.inference@.take(i as int) =~= b.inference@);
}

fn emit_type_mismatches(b: &Body, acc: &mut Vec<AnyDiagnostic>)
    ensures
        views(final(acc)@) == views(old(acc)@) + b.mismatches@.filter_map(|m: TypeMismatchRecord| mismatch_view(b, m)),
{
    let ghost acc0 = views(acc@);
    let mut i: usize = 0;
    while i < b.mismatches.len()
        invariant
            i <= b.mismatches@.len(),
            views(acc@) == acc0 + b.mismatches@.take(i as int).filter_map(|m: TypeMismatchRecord| mismatch_view(b, m)),
        decreases b.mismatches@.len() - i,
    {
        let ghost before = views(acc@);
        let m = b.mismatches[i];
        let d = match expr_syntax(b, m.expr) {
            Some(e) => Some(AnyDiagnostic::TypeMismatch {
                expr: e,
                expected: Type { ty: m.expected, env: b.env },
                actual: Type { ty: m.actual, env: b.env },
            }),
            None => None,
        };
        match d {
            Some(d) => {
                push_diagnostic(acc, d);
                assert(views(acc@) =~= before + opt_seq(mismatch_view(b, b.mismatches@[i as int])));
            },
            None => {
                assert(views(acc@) =~= before + opt_seq(mismatch_view(b, b.mismatches@[i as int])));
            },
        }
        proof {
            lemma_emitted_step(b.mismatches@, i as int, |m: TypeMismatchRecord| mismatch_view(b, m));
            assert(views(acc@) == acc0 + b.mismatches@.take(i + 1).filter_map(|m: TypeMismatchRecord| mismatch_view(b, m)));
        }
        i = i + 1;
    }
    assert(b.mismatches@.take(i as int) =~= b.mismatches@);
}

fn emit_missing_unsafe(b: &Body, acc: &mut Vec<AnyDiagnostic>)
    ensures
        views(final(acc)@) == views(old(acc)@) + b.unsafe_exprs@.filter_map(|e: u32| unsafe_view(b, e)),
{
    let ghost acc0 = views(acc@);
    let mut i: usize = 0;
    while i < b.unsafe_exprs.len()
        invariant
            i <= b.unsafe_exprs@.len(),
            views(acc@) == acc0 + b.unsafe_exprs@.take(i as int).filter_map(|e: u32| unsafe_view(b, e)),
        decreases b.unsafe_exprs@.len() - i,
    {
        let ghost before = views(acc@);
        let d = match expr_syntax(b, b.unsafe_exprs[i]) {
            Some(p) => Some(AnyDiagnostic::MissingUnsafe { expr: p }),
            None => None,
        };
        match d {
            Some(d) => {
                push_diagnostic(acc, d);
                assert(views(acc@) =~= before + opt_seq(unsafe_view(b, b.unsafe_exprs@[i as int])));
            },
            None => {
                assert(views(acc@) =~= before + opt_seq(unsafe_view(b, b.unsafe_exprs@[i as int])));
            },
        }
        proof {
            lemma_emitted_step(b.unsafe_exprs@, i as int, |e: u32| unsafe_view(b, e));
            assert(views(acc@) == acc0 + b.unsafe_exprs@.take(i + 1).filter_map(|e: u32| unsafe_view(b, e)));
        }
        i = i + 1;
    }
    assert(b.unsafe_exprs@.take(i as int) =~= b.unsafe_exprs@);
}

fn emit_validation_diagnostics(db: &HirDatabase, b: &Body, acc: &mut Vec<AnyDiagnostic>)
    ensures
        views(final(acc)@) == views(old(acc)@) + b.validation@.filter_map(|d: ValidationDiagnostic| validation_view(db, b, d)),
{
    let ghost acc0 = views(acc@);
    let mut i: usize = 0;
    while i < b.validation.len()
        invariant
            i <= b.validation@.len(),
            views(acc@) == acc0 + b.validation@.take(i as int).filter_map(|d: ValidationDiagnostic| validation_view(db, b, d)),
        decreases b.validation@.len() - i,
    {
        let ghost before = views(acc@);
        let d = match &b.validation[i] {
            ValidationDiagnostic::RecordFields { record, variant, present } => {
                let src = match record {
                    RecordSite::Expr(e) => expr_syntax(b, *e),
                    RecordSite::Pat(p) => pat_syntax(b, *p),
                };
                match (src, field_names(db, *variant)) {
                    (Some(ptr), Some(declared)) => {
                        let missed = missing_fields(&declared, present);
                        if missed.len() > 0 {
                            Some(AnyDiagnostic::MissingFields { record: ptr, missed_fields: missed })
                        } else {
                            None
                        }
                    },
                    _ => None,
                }
            },
            ValidationDiagnostic::ReplaceFilterMapNextWithFindMap { method_call_expr } => match expr_syntax(b, *method_call_expr) {
                Some(p) => Some(AnyDiagnostic::ReplaceFilterMapNextWithFindMap { next_expr: p }),
                None => None,
            },
            ValidationDiagnostic::MissingMatchArms { match_expr, uncovered_patterns } => match expr_syntax(b, *match_expr) {
                Some(p) => Some(AnyDiagnostic::MissingMatchArms { match_expr: p, uncovered_patterns: *uncovered_patterns }),
                None => None,
            },
        };
        match d {
            Some(d) => {
                push_diagnostic(acc, d);
                assert(views(acc@) =~= before + opt_seq(validation_view(db, b, b.validation@[i as int])));
            },
            None => {
                assert(views(acc@) =~= before + opt_seq(validation_view(db, b, b.validation@[i as int])));
            },
        }
        proof {
            lemma_emitted_step(b.validation@, i as int, |d: ValidationDiagnostic| validation_view(db, b, d));
            assert(views(acc@) == acc0 + b.validation@.take(i + 1).filter_map(|d: ValidationDiagnostic| validation_view(db, b, d)));
        }
        i = i + 1;
    }
    assert(b.validation@.take(i as int) =~= b.validation@);
}

fn emit_incorrect_case(b: &Body, acc: &mut Vec<AnyDiagnostic>)
    ensures
        views(final(acc)@) == views(old(acc)@) + b.incorrect_case@.filter_map(|c: IncorrectCase| case_view(c)),
{
    let ghost acc0 = views(acc@);
    let mut i: usize = 0;
    while i < b.incorrect_case.len()
        invariant
            i <= b.incorrect_case@.len(),
            views(acc@) == acc0 + b.incorrect_case@.take(i as int).filter_map(|c: IncorrectCase| case_view(c)),
        decreases b.incorrect_case@.len() - i,
    {
        let ghost before = views(acc@);
        push_diagnostic(acc, AnyDiagnostic::IncorrectCase(b.incorrect_case[i]));
        assert(views(acc@) =~= before + opt_seq(case_view(b.incorrect_case@[i as int])));
        proof {
            lemma_emitted_step(b.incorrect_case@, i as int, |c: IncorrectCase| case_view(c));
            assert(views(acc@) == acc0 + b.incorrect_case@.take(i + 1).filter_map(|c: IncorrectCase| case_view(c)));
        }
        i = i + 1;
    }
    assert(b.incorrect_case@.take(i as int) =~= b.incorrect_case@);
}

impl DefWithBody {
    /// Appends the diagnostics of this definition's body to `acc`.
    pub fn diagnostics(self, db: &HirDatabase, acc: &mut Vec<AnyDiagnostic>)
        requires
            self.has_body(db),
        ensures
            views(final(acc)@) == views(old(acc)@) + body_diagnostics(db, &db.bodies@[self.body_spec(db)]),
    {
        let b = &db.bodies[self.body_id(db)];
        emit_def_diagnostics(db, &b.block_diagnostics, acc);
        emit_lowering_diagnostics(b, acc);
        emit_inference_diagnostics(b, acc);
        emit_type_mismatches(b, acc);
        emit_missing_unsafe(b, acc);
        emit_validation_diagnostics(db, b, acc);
        emit_incorrect_case(b, acc);
        assert(views(acc@) =~= views(old(acc)@) + body_diagnostics(db, b));
    }
}


pub open spec fn def_case_view(d: ModuleDef, r: CaseRecord) -> Option<DiagnosticView> {
    if r.def == d {
        Some(DiagnosticView::IncorrectCase(r.case))
    } else {
        None
    }
}

/// The diagnostics of a body-owning definition; nothing for a handle the
/// snapshot does not hold.
pub open spec fn def_body_diagnostics(db: &HirDatabase, def: DefWithBody) -> Seq<DiagnosticView> {
    if def.has_body(db) {
        body_diagnostics(db, &db.bodies@[def.body_spec(db)])
    } else {
        Seq::empty()
    }
}

/// The diagnostics of one definition: those of its body, or else its naming
/// findings. Macros and crate roots report nothing here.
pub open spec fn module_def_diagnostics(db: &HirDatabase, d: ModuleDef) -> Seq<DiagnosticView> {
    match d {
        ModuleDef::Macro(_) => Seq::empty(),
        ModuleDef::Module(m) => if m.id < db.modules@.len() && db.modules@[m.id as int].parent is Some {
            db.case_diagnostics@.filter_map(|r: CaseRecord| def_case_view(d, r))
        } else {
            Seq::empty()
        },
        _ => match d.def_with_body() {
            Some(def) => def_body_diagnostics(db, def),
            None => db.case_diagnostics@.filter_map(|r: CaseRecord| def_case_view(d, r)),
        },
    }
}

fn emit_case_records(db: &HirDatabase, d: ModuleDef, acc: &mut Vec<AnyDiagnostic>)
    ensures
        views(final(acc)@) == views(old(acc)@) + db.case_diagnostics@.filter_map(
            |r: CaseRecord| def_case_view(d, r),
        ),
{
    let ghost acc0 = views(acc@);
    let mut i: usize = 0;
    while i < db.case_diagnostics.len()
        invariant
            i <= db.case_diagnostics@.len(),
            views(acc@) == acc0 + db.case_diagnostics@.take(i as int).filter_map(
                |r: CaseRecord| def_case_view(d, r),
            ),
        decreases db.case_diagnostics@.len() - i,
    {
        let ghost before = views(acc@);
        let r = &db.case_diagnostics[i];
        if r.def == d {
            push_diagnostic(acc, AnyDiagnostic::IncorrectCase(r.case));
        }
        assert(views(acc@) =~= before + opt_seq(def_case_view(d, db.case_diagnostics@[i as int])));
        proof {
            lemma_emitted_step(db.case_diagnostics@, i as int, |r: CaseRecord| def_case_view(d, r));
        }
        i = i + 1;
    }
    assert(db.case_diagnostics@.take(i as int) =~= db.case_diagnostics@);
}

fn emit_def_body_diagnostics(db: &HirDatabase, def: DefWithBody, acc: &mut Vec<AnyDiagnostic>)
    ensures
        views(final(acc)@) == views(old(acc)@) + def_body_diagnostics(db, def),
{
    if def.has_body_in(db) {
        def.diagnostics(db, acc);
    } else {
        assert(views(acc@) + def_body_diagnostics(db, def) =~= views(acc@));
    }
}

impl ModuleDef {
    /// The diagnostics of this definition alone.
    pub fn diagnostics(self, db: &HirDatabase) -> (r: Vec<AnyDiagnostic>)
        ensures
            views(r@) == module_def_diagnostics(db, self),
    {
        let mut acc: Vec<AnyDiagnostic> = Vec::new();
        assert(views(acc@) =~= Seq::<DiagnosticView>::empty());
        match self {
            ModuleDef::Macro(_) => {},
            ModuleDef::Module(m) => {
                if (m.id as usize) < db.modules.len() && db.modules[m.id as usize].parent.is_some() {
                    emit_case_records(db, self, &mut acc);
                }
            },
            _ => match self.as_def_with_body() {
                Some(def) => emit_def_body_diagnostics(db, def, &mut acc),
                None => emit_case_records(db, self, &mut acc),
            },
        }
        assert(views(acc@) =~= module_def_diagnostics(db, self));
        acc
    }
}


/// The concatenation of `f` over `s`, in order.
pub open spec fn flat_map<A>(s: Seq<A>, f: spec_fn(A) -> Seq<DiagnosticView>) -> Seq<DiagnosticView>
    decreases s.len(),
{
    if s.len() == 0 {
        Seq::empty()
    } else {
        flat_map(s.drop_last(), f) + f(s.last())
    }
}

pub proof fn lemma_flat_map_step<A>(s: Seq<A>, i: int, f: spec_fn(A) -> Seq<DiagnosticView>)
    requires
        0 <= i < s.len(),
    ensures
        flat_map(s.take(i + 1), f) == flat_map(s.take(i), f) + f(s[i]),
{
    assert(s.take(i + 1).drop_last() =~= s.take(i));
}

pub open spec fn variant_def_diagnostics(db: &HirDatabase, v: u32) -> Seq<DiagnosticView> {
    module_def_diagnostics(db, ModuleDef::Variant(crate::entity::Variant { id: v }))
}

/// The diagnostics of the variants of enum `e`, in declaration order.
pub open spec fn enum_variants_diagnostics(db: &HirDatabase, e: u32) -> Seq<DiagnosticView> {
    if e < db.enums@.len() {
        flat_map(db.enums@[e as int].variants@, |v: u32| variant_def_diagnostics(db, v))
    } else {
        Seq::empty()
    }
}

/// The diagnostics of a trait container: its own, then those of its
/// associated items that have bodies.
pub open spec fn trait_own_diagnostics(db: &HirDatabase, t: u32) -> Seq<DiagnosticView> {
    if t < db.traits@.len() {
        db.traits@[t as int].diagnostics@.filter_map(|d: DefDiagnostic| def_diagnostic_view(db, d))
            + flat_map(db.traits@[t as int].items@, |item: AssocItem| assoc_item_diagnostics(db, item))
    } else {
        Seq::empty()
    }
}

/// What a declaration that is not a module contributes to its module's diagnostics.
pub open spec fn declaration_diagnostics(db: &HirDatabase, d: ModuleDef) -> Seq<DiagnosticView> {
    match d {
        ModuleDef::Trait(t) => trait_own_diagnostics(db, t.id) + module_def_diagnostics(db, d),
        ModuleDef::Adt(Adt::Enum(e)) => enum_variants_diagnostics(db, e.id) + module_def_diagnostics(db, d),
        _ => module_def_diagnostics(db, d),
    }
}

pub open spec fn assoc_item_diagnostics(db: &HirDatabase, item: AssocItem) -> Seq<DiagnosticView> {
    match item {
        AssocItem::Function(f) => def_body_diagnostics(db, DefWithBody::Function(f)),
        AssocItem::Const(c) => def_body_diagnostics(db, DefWithBody::Const(c)),
        AssocItem::TypeAlias(_) => Seq::empty(),
    }
}

/// The diagnostics of an impl: its own, then those of its associated items.
pub open spec fn impl_diagnostics(db: &HirDatabase, i: u32) -> Seq<DiagnosticView> {
    if i < db.impls@.len() {
        db.impls@[i as int].diagnostics@.filter_map(|d: DefDiagnostic| def_diagnostic_view(db, d))
            + flat_map(db.impls@[i as int].items@, |item: AssocItem| assoc_item_diagnostics(db, item))
    } else {
        Seq::empty()
    }
}

pub open spec fn in_module_view(db: &HirDatabase, m: int, d: DefDiagnostic) -> Option<DiagnosticView> {
    if d.in_module == m {
        def_diagnostic_view(db, d)
    } else {
        None
    }
}

/// The name-resolution diagnostics of the crate that belong to module `m`.
pub open spec fn module_own_diagnostics(db: &HirDatabase, m: int) -> Seq<DiagnosticView> {
    let k = db.modules@[m].krate;
    if k < db.crates@.len() {
        db.crates@[k as int].def_diagnostics@.filter_map(|d: DefDiagnostic| in_module_view(db, m, d))
    } else {
        Seq::empty()
    }
}

/// The diagnostics of module `m`: its own name-resolution diagnostics, those of
/// its declarations (descending into inline child modules only), then those of
/// its impls.
pub open spec fn module_diagnostics(db: &HirDatabase, m: int) -> Seq<DiagnosticView>
    decreases db.modules@.len() - m, 1int, 0int,
{
    if 0 <= m < db.modules@.len() {
        module_own_diagnostics(db, m) + declarations_diagnostics(
            db,
            m,
            db.modules@[m].declarations@.len() as int,
        ) + flat_map(db.modules@[m].impls@, |i: u32| impl_diagnostics(db, i))
    } else {
        Seq::empty()
    }
}

/// The diagnostics of the first `k` declarations of module `m`.
pub open spec fn declarations_diagnostics(db: &HirDatabase, m: int, k: int) -> Seq<DiagnosticView>
    decreases db.modules@.len() - m, 0int, k,
{
    if 0 <= m < db.modules@.len() && 0 < k <= db.modules@[m].declarations@.len() {
        let d = db.modules@[m].declarations@[k - 1];
        declarations_diagnostics(db, m, k - 1) + match d {
            ModuleDef::Module(c) => if m < c.id < db.modules@.len() && db.modules@[c.id as int].is_inline {
                module_diagnostics(db, c.id as int)
            } else {
                Seq::empty()
            },
            _ => declaration_diagnostics(db, d),
        }
    } else {
        Seq::empty()
    }
}


fn emit_def_diagnostics(db: &HirDatabase, list: &Vec<DefDiagnostic>, acc: &mut Vec<AnyDiagnostic>)
    ensures
        views(final(acc)@) == views(old(acc)@) + list@.filter_map(|d: DefDiagnostic| def_diagnostic_view(db, d)),
{
    let ghost acc0 = views(acc@);
    let mut i: usize = 0;
    while i < list.len()
        invariant
            i <= list@.len(),
            views(acc@) == acc0 + list@.take(i as int).filter_map(|d: DefDiagnostic| def_diagnostic_view(db, d)),
        decreases list@.len() - i,
    {
        let ghost before = views(acc@);
        emit_def_diagnostic(db, acc, &list[i]);
        proof {
            lemma_emitted_step(list@, i as int, |d: DefDiagnostic| def_diagnostic_view(db, d));
            assert(views(acc@) =~= acc0 + list@.take(i + 1).filter_map(|d: DefDiagnostic| def_diagnostic_view(db, d)));
        }
        i = i + 1;
    }
    assert(list@.take(i as int) =~= list@);
}

fn emit_module_own(db: &HirDatabase, m: usize, acc: &mut Vec<AnyDiagnostic>)
    requires
        m < db.modules@.len(),
    ensures
        views(final(acc)@) == views(old(acc)@) + module_own_diagnostics(db, m as int),
{
    let k = db.modules[m].krate as usize;
    if k < db.crates.len() {
        let list = &db.crates[k].def_diagnostics;
        let ghost acc0 = views(acc@);
        let mut i: usize = 0;
        while i < list.len()
            invariant
                i <= list@.len(),
                *list == db.crates@[k as int].def_diagnostics,
                views(acc@) == acc0 + list@.take(i as int).filter_map(
                    |d: DefDiagnostic| in_module_view(db, m as int, d),
                ),
            decreases list@.len() - i,
        {
            let ghost before = views(acc@);
            if list[i].in_module as usize == m {
                emit_def_diagnostic(db, acc, &list[i]);
            }
            assert(views(acc@) =~= before + opt_seq(in_module_view(db, m as int, list@[i as int])));
            proof {
                lemma_emitted_step(list@, i as int, |d: DefDiagnostic| in_module_view(db, m as int, d));
            }
            i = i + 1;
        }
        assert(list@.take(i as int) =~= list@);
    } else {
        assert(views(acc@) + module_own_diagnostics(db, m as int) =~= views(acc@));
    }
}

fn emit_enum_variants(db: &HirDatabase, e: u32, acc: &mut Vec<AnyDiagnostic>)
    ensures
        views(final(acc)@) == views(old(acc)@) + enum_variants_diagnostics(db, e),
{
    if (e as usize) < db.enums.len() {
        let vs = &db.enums[e as usize].variants;
        let ghost acc0 = views(acc@);
        let mut i: usize = 0;
        while i < vs.len()
            invariant
                i <= vs@.len(),
                *vs == db.enums@[e as int].variants,
                views(acc@) == acc0 + flat_map(vs@.take(i as int), |v: u32| variant_def_diagnostics(db, v)),
            decreases vs@.len() - i,
        {
            let ghost before = views(acc@);
            let ds = ModuleDef::Variant(crate::entity::Variant { id: vs[i] }).diagnostics(db);
            append_diagnostics(acc, ds);
            proof {
                lemma_flat_map_step(vs@, i as int, |v: u32| variant_def_diagnostics(db, v));
                assert(views(acc@) =~= acc0 + flat_map(vs@.take(i + 1), |v: u32| variant_def_diagnostics(db, v)));
            }
            i = i + 1;
        }
        assert(vs@.take(i as int) =~= vs@);
    } else {
        assert(views(acc@) + enum_variants_diagnostics(db, e) =~= views(acc@));
    }
}

/// Moves every diagnostic of `ds` to the end of `acc`.
pub fn append_diagnostics(acc: &mut Vec<AnyDiagnostic>, ds: Vec<AnyDiagnostic>)
    ensures
        views(final(acc)@) == views(old(acc)@) + views(ds@),
{
    let mut ds = ds;
    let ghost a0 = acc@;
    let ghost d0 = ds@;
    acc.append(&mut ds);
    assert(views(a0 + d0) =~= views(a0) + views(d0));
}


fn emit_assoc_items(db: &HirDatabase, items: &Vec<AssocItem>, acc: &mut Vec<AnyDiagnostic>)
    ensures
        views(final(acc)@) == views(old(acc)@) + flat_map(items@, |item: AssocItem| assoc_item_diagnostics(db, item)),
{
    let ghost acc1 = views(acc@);
    let mut j: usize = 0;
    while j < items.len()
        invariant
            j <= items@.len(),
            views(acc@) == acc1 + flat_map(items@.take(j as int), |item: AssocItem| assoc_item_diagnostics(db, item)),
        decreases items@.len() - j,
    {
        let ghost before = views(acc@);
        match items[j] {
            AssocItem::Function(f) => emit_def_body_diagnostics(db, DefWithBody::Function(f), acc),
            AssocItem::Const(c) => emit_def_body_diagnostics(db, DefWithBody::Const(c), acc),
            AssocItem::TypeAlias(_) => {
                assert(views(acc@) =~= before + assoc_item_diagnostics(db, items@[j as int]));
            },
        }
        proof {
            lemma_flat_map_step(items@, j as int, |item: AssocItem| assoc_item_diagnostics(db, item));
            assert(views(acc@) =~= acc1 + flat_map(items@.take(j + 1), |item: AssocItem| assoc_item_diagnostics(db, item)));
        }
        j = j + 1;
    }
    assert(items@.take(j as int) =~= items@);
}

fn emit_impl(db: &HirDatabase, i: u32, acc: &mut Vec<AnyDiagnostic>)
    ensures
        views(final(acc)@) == views(old(acc)@) + impl_diagnostics(db, i),
{
    if (i as usize) < db.impls.len() {
        let data = &db.impls[i as usize];
        let ghost acc0 = views(acc@);
        emit_def_diagnostics(db, &data.diagnostics, acc);
        emit_assoc_items(db, &data.items, acc);
        assert(views(acc@) =~= acc0 + impl_diagnostics(db, i));
    } else {
        assert(views(acc@) + impl_diagnostics(db, i) =~= views(acc@));
    }
}

fn emit_declaration(db: &HirDatabase, d: ModuleDef, acc: &mut Vec<AnyDiagnostic>)
    ensures
        views(final(acc)@) == views(old(acc)@) + declaration_diagnostics(db, d),
{
    let ghost acc0 = views(acc@);
    match d {
        ModuleDef::Trait(t) => {
            if (t.id as usize) < db.traits.len() {
                emit_def_diagnostics(db, &db.traits[t.id as usize].diagnostics, acc);
                emit_assoc_items(db, &db.traits[t.id as usize].items, acc);
            } else {
                assert(views(acc@) + trait_own_diagnostics(db, t.id) =~= views(acc@));
            }
        },
        ModuleDef::Adt(Adt::Enum(e)) => emit_enum_variants(db, e.id, acc),
        _ => {
            assert(views(acc@) + Seq::<DiagnosticView>::empty() =~= views(acc@));
        },
    }
    let ds = d.diagnostics(db);
    append_diagnostics(acc, ds);
    assert(views(acc@) =~= acc0 + declaration_diagnostics(db, d));
}

impl Module {
    /// Appends to `acc` the diagnostics of this module: the name-resolution
    /// diagnostics recorded for it, those of its declarations and inline child
    /// modules, and those of its impls. A module declared in a file of its own
    /// is left to its own call.
    pub fn diagnostics(self, db: &HirDatabase, acc: &mut Vec<AnyDiagnostic>)
        ensures
            views(final(acc)@) == views(old(acc)@) + module_diagnostics(db, self.id as int),
        decreases db.modules@.len() - self.id,
    {
        let m = self.id as usize;
        if m >= db.modules.len() {
            assert(views(acc@) + module_diagnostics(db, self.id as int) =~= views(acc@));
            return;
        }
        let ghost acc0 = views(acc@);
        emit_module_own(db, m, acc);
        let ghost acc1 = views(acc@);
        let decls = &db.modules[m].declarations;
        let mut i: usize = 0;
        while i < decls.len()
            invariant
                m == self.id,
                m < db.modules@.len(),
                i <= decls@.len(),
                *decls == db.modules@[m as int].declarations,
                views(acc@) == acc1 + declarations_diagnostics(db, m as int, i as int),
            decreases decls@.len() - i,
        {
            let ghost before = views(acc@);
            let d = decls[i];
            match d {
                ModuleDef::Module(c) => {
                    if self.id < c.id && (c.id as usize) < db.modules.len() && db.modules[c.id as usize].is_inline {
                        c.diagnostics(db, acc);
                    } else {
                        assert(views(acc@) + Seq::<DiagnosticView>::empty() =~= views(acc@));
                    }
                },
                _ => emit_declaration(db, d, acc),
            }
            i = i + 1;
            assert(views(acc@) =~= acc1 + declarations_diagnostics(db, m as int, i as int));
        }
        let ghost acc2 = views(acc@);
        let impls = &db.modules[m].impls;
        let mut j: usize = 0;
        while j < impls.len()
            invariant
                m < db.modules@.len(),
                j <= impls@.len(),
                *impls == db.modules@[m as int].impls,
                views(acc@) == acc2 + flat_map(impls@.take(j as int), |i: u32| impl_diagnostics(db, i)),
            decreases impls@.len() - j,
        {
            emit_impl(db, impls[j], acc);
            proof {
                lemma_flat_map_step(impls@, j as int, |i: u32| impl_diagnostics(db, i));
                assert(views(acc@) =~= acc2 + flat_map(impls@.take(j + 1), |i: u32| impl_diagnostics(db, i)));
            }
            j = j + 1;
        }
        assert(impls@.take(j as int) =~= impls@);
        assert(views(acc@) =~= acc0 + module_diagnostics(db, self.id as int));
    }
}


/// An expression that lowering synthesised, having no source, anchors no
/// diagnostic: whatever inference, type checking, the unsafe check or
/// validation report about it is dropped from the body's diagnostics.
pub proof fn lemma_synthetic_expr_dropped(db: &HirDatabase, b: &Body, e: u32)
    requires
        expr_source(b, e) is None,
    ensures
        inference_view(b, InferenceDiagnostic::NoSuchField { expr: e }) is None,
        forall|is_break: bool| #[trigger] inference_view(b, InferenceDiagnostic::BreakOutsideOfLoop { expr: e, is_break }) is None,
        forall|x: u32, y: u32|
            #[trigger] inference_view(b, InferenceDiagnostic::MismatchedArgCount { call_expr: e, expected: x, found: y }) is None,
        forall|x: u32, y: u32| #[trigger] mismatch_view(b, TypeMismatchRecord { expr: e, expected: x, actual: y }) is None,
        unsafe_view(b, e) is None,
        validation_view(db, b, ValidationDiagnostic::ReplaceFilterMapNextWithFindMap { method_call_expr: e }) is None,
        forall|u: Name| #[trigger] validation_view(db, b, ValidationDiagnostic::MissingMatchArms { match_expr: e, uncovered_patterns: u }) is None,
        forall|v: VariantDef, present: Vec<Name>|
            #[trigger] validation_view(db, b, ValidationDiagnostic::RecordFields { record: RecordSite::Expr(e), variant: v, present }) is None,
{
}

/// Every missing-unsafe diagnostic of a body comes from an expression of
/// the body's unsafe list, and so (by [`unsafe_view`]) sits at that
/// expression's source, which it has.
pub proof fn lemma_missing_unsafe_located(b: &Body, d: DiagnosticView)
    requires
        b.unsafe_exprs@.filter_map(|e: u32| unsafe_view(b, e)).contains(d),
    ensures
        (exists|e: u32| #[trigger] b.unsafe_exprs@.contains(e) && unsafe_view(b, e) == Some(d)),
{
    b.unsafe_exprs@.lemma_filter_map_contains(|e: u32| unsafe_view(b, e), d);
}

/// Every type-mismatch diagnostic of a body comes from a recorded mismatch,
/// and so (by [`mismatch_view`]) sits at the source of its expression.
pub proof fn lemma_type_mismatch_located(b: &Body, d: DiagnosticView)
    requires
        b.mismatches@.filter_map(|m: TypeMismatchRecord| mismatch_view(b, m)).contains(d),
    ensures
        (exists|m: TypeMismatchRecord| #[trigger] b.mismatches@.contains(m) && mismatch_view(b, m) == Some(d)),
{
    b.mismatches@.lemma_filter_map_contains(|m: TypeMismatchRecord| mismatch_view(b, m), d);
}

/// A record pattern that lowering synthesised anchors no missing-fields diagnostic.
pub proof fn lemma_synthetic_pat_dropped(db: &HirDatabase, b: &Body, p: u32)
    requires
        pat_source(b, p) is None,
    ensures
        forall|v: VariantDef, present: Vec<Name>|
            #[trigger] validation_view(db, b, ValidationDiagnostic::RecordFields { record: RecordSite::Pat(p), variant: v, present }) is None,
{
}

} // verus!
