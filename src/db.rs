//! The database snapshot that every accessor reads: plain records in arenas,
//! addressed by integer ids.
use vstd::prelude::*;
use crate::entity::{
    AssocItem, Crate, Function, Macro, ModuleDef, Trait, TypeAlias, VariantDef,
};

verus! {

/// An interned identifier or symbol name.
#[derive(Clone, Copy, Debug, PartialEq, Eq, Hash, Structural)]
pub struct Name {
    pub symbol: u32,
}

/// Whether a reference or pointer permits mutation.
#[derive(Clone, Copy, Debug, PartialEq, Eq, Hash, Structural)]
pub enum Mutability {
    Not,
    Mut,
}

/// How a `self` parameter takes its receiver.
#[derive(Clone, Copy, Debug, PartialEq, Eq, Structural)]
pub enum Access {
    Shared,
    Exclusive,
    Owned,
}

/// The access a reference of mutability `m` grants.
pub open spec fn access_of(m: Mutability) -> Access {
    match m {
        Mutability::Not => Access::Shared,
        Mutability::Mut => Access::Exclusive,
    }
}

impl Access {
    pub fn from_mutability(m: Mutability) -> (r: Access)
        ensures
            r == access_of(m),
    {
        match m {
            Mutability::Not => Access::Shared,
            Mutability::Mut => Access::Exclusive,
        }
    }
}

impl From<Mutability> for Access {
    fn from(m: Mutability) -> (r: Access) {
        Access::from_mutability(m)
    }
}

impl vstd::std_specs::convert::FromSpecImpl<Mutability> for Access {
    open spec fn obeys_from_spec() -> bool {
        true
    }

    open spec fn from_spec(m: Mutability) -> Access {
        access_of(m)
    }
}


/// A half-open range of text offsets.
#[derive(Clone, Copy, Debug, PartialEq, Eq, Hash, Structural)]
pub struct TextRange {
    pub start: u32,
    pub end: u32,
}

/// A located piece of source: a file and a range in it.
#[derive(Clone, Copy, Debug, PartialEq, Eq, Hash, Structural)]
pub struct SourcePtr {
    pub file: u32,
    pub range: TextRange,
}

/// Who may see an item: everyone, or the subtree under one module.
#[derive(Clone, Copy, Debug, PartialEq, Eq, Hash, Structural)]
pub enum Visibility {
    Public,
    Module(u32),
}

/// The flavour of a macro definition.
#[derive(Clone, Copy, Debug, PartialEq, Eq, Hash, Structural)]
pub enum MacroKind {
    /// `macro_rules!` or Macros 2.0 macro.
    Declarative,
    /// A built-in or custom derive.
    Derive,
    /// A built-in function-like macro.
    BuiltIn,
    /// A procedural attribute macro.
    Attr,
    /// A function-like procedural macro.
    ProcMacro,
}

/// How a binding pattern binds.
#[derive(Clone, Copy, Debug, PartialEq, Eq, Hash, Structural)]
pub enum BindingMode {
    Move,
    Mutable,
    Ref,
    RefMut,
}

/// Built-in scalar types.
#[derive(Clone, Copy, Debug, PartialEq, Eq, Hash, Structural)]
pub enum Scalar {
    Bool,
    Char,
    Int,
    Uint,
    Float,
    Usize,
}


/// A dependency edge of the crate graph, with the name it is imported under.
#[derive(Clone, Copy, Debug, PartialEq, Eq, Hash, Structural)]
pub struct CrateDependency {
    pub krate: Crate,
    pub name: Name,
}

pub struct CrateData {
    pub root_module: u32,
    pub dependencies: Vec<CrateDependency>,
    /// What name resolution reported for the crate, each tagged with its module.
    pub def_diagnostics: Vec<DefDiagnostic>,
}

/// A definition bound in a scope, with the visibility of that binding.
#[derive(Clone, Copy, Debug, PartialEq, Eq, Hash, Structural)]
pub struct ScopeBinding {
    pub def: ModuleDef,
    pub visibility: Visibility,
}

#[derive(Clone, Copy, Debug, PartialEq, Eq, Hash, Structural)]
pub struct MacroBinding {
    pub mac: Macro,
    pub visibility: Visibility,
}

/// The three namespaces a scope name can occupy at once.
#[derive(Clone, Copy, Debug, PartialEq, Eq, Hash, Structural)]
pub struct PerNs {
    pub types: Option<ScopeBinding>,
    pub values: Option<ScopeBinding>,
    pub macros: Option<MacroBinding>,
}

#[derive(Clone, Copy, Debug, PartialEq, Eq, Hash, Structural)]
pub struct ScopeEntry {
    pub name: Name,
    pub def: PerNs,
}

pub struct ModuleData {
    pub krate: u32,
    pub parent: Option<u32>,
    pub name: Option<Name>,
    /// Declared with a body inside its parent rather than in a file of its own.
    pub is_inline: bool,
    pub visibility: Visibility,
    pub scope: Vec<ScopeEntry>,
    pub declarations: Vec<ModuleDef>,
    pub impls: Vec<u32>,
}

/// Where an item is declared: directly in a module, or in a trait or impl.
#[derive(Clone, Copy, Debug, PartialEq, Eq, Hash, Structural)]
pub enum ItemContainer {
    Module,
    Trait(u32),
    Impl(u32),
}

pub struct FieldData {
    pub name: Name,
    pub ty: u32,
    pub visibility: Visibility,
}

pub struct AdtData {
    pub module: u32,
    pub name: Name,
    pub visibility: Visibility,
    pub fields: Vec<FieldData>,
    /// Generic arguments with all parameters as placeholders.
    pub ty: u32,
    /// The trait environment of the definition's own generics.
    pub env: u32,
    pub is_packed: bool,
}

pub struct EnumData {
    pub module: u32,
    pub name: Name,
    pub visibility: Visibility,
    pub variants: Vec<u32>,
    pub ty: u32,
    pub env: u32,
}

pub struct VariantData {
    pub parent: u32,
    pub name: Name,
    pub fields: Vec<FieldData>,
    pub body: u32,
}

/// The parameter list of a function as written: the `self` parameter and,
/// for each other parameter, its pattern when it has one.
pub struct ParamListSyntax {
    pub self_param: Option<SourcePtr>,
    pub params: Vec<Option<SourcePtr>>,
}

pub struct FunctionData {
    pub module: u32,
    pub name: Name,
    pub visibility: Visibility,
    pub container: ItemContainer,
    pub self_param: Option<Access>,
    pub params: Vec<u32>,
    pub ret_type: u32,
    pub env: u32,
    pub param_list: Option<ParamListSyntax>,
    pub is_unsafe: bool,
    pub is_async: bool,
    pub is_const: bool,
    pub body: u32,
}

pub struct ConstData {
    pub module: u32,
    pub name: Option<Name>,
    pub visibility: Visibility,
    pub container: ItemContainer,
    pub ty: u32,
    pub body: u32,
}

pub struct StaticData {
    pub module: u32,
    pub name: Name,
    pub visibility: Visibility,
    pub is_mut: bool,
    pub ty: u32,
    pub body: u32,
}

pub struct TraitData {
    pub module: u32,
    pub name: Name,
    pub visibility: Visibility,
    pub is_auto: bool,
    pub is_unsafe: bool,
    pub items: Vec<AssocItem>,
    pub diagnostics: Vec<DefDiagnostic>,
}

pub struct TypeAliasData {
    pub module: u32,
    pub name: Name,
    pub visibility: Visibility,
    pub container: ItemContainer,
    pub ty: u32,
}

/// The kind of a procedural macro.
#[derive(Clone, Copy, Debug, PartialEq, Eq, Hash, Structural)]
pub enum ProcMacroKind {
    CustomDerive,
    FuncLike,
    Attr,
}

/// What expands a macro.
#[derive(Clone, Copy, Debug, PartialEq, Eq, Hash, Structural)]
pub enum MacroExpander {
    Declarative,
    BuiltIn,
    BuiltInEager,
    BuiltInAttr,
    BuiltInDerive,
    ProcMacro(ProcMacroKind),
}

pub struct MacroData {
    pub module: u32,
    pub name: Name,
    pub visibility: Visibility,
    pub expander: MacroExpander,
    /// Exported with `#[macro_export]`.
    pub macro_export: bool,
}

pub struct ImplData {
    pub module: u32,
    pub self_ty: u32,
    /// The trait environment of the impl's own generics.
    pub env: u32,
    pub trait_: Option<Trait>,
    pub items: Vec<AssocItem>,
    pub is_negative: bool,
    pub diagnostics: Vec<DefDiagnostic>,
}

/// A reference to the trait bound `trait_<args>`; `args[0]` is the Self type.
pub struct TraitBound {
    pub trait_: Trait,
    pub args: Vec<u32>,
}

/// One node of the interned type tree; child types are ids of earlier nodes.
pub enum TyKind {
    Adt { adt: crate::entity::Adt, args: Vec<u32> },
    AssociatedType { alias: TypeAlias, parent_trait: Option<Trait>, args: Vec<u32> },
    OpaqueType { bounds: Vec<TraitBound>, args: Vec<u32> },
    Tuple { args: Vec<u32> },
    FnDef { func: Function, args: Vec<u32> },
    Closure { args: Vec<u32> },
    FnPtr { args: Vec<u32> },
    Array { elem: u32, len_known: bool },
    Slice { elem: u32 },
    Raw { mutability: Mutability, pointee: u32 },
    Ref { mutability: Mutability, pointee: u32 },
    Scalar { scalar: Scalar },
    Str,
    Never,
    Placeholder { param: u32, bounds: Vec<TraitBound> },
    Dyn { bounds: Vec<TraitBound> },
    Error,
}

/// The predicate assumptions attached to a type.
pub struct TraitEnvironment {
    pub krate: u32,
    pub traits: Vec<Trait>,
}

/// A custom dereference target: values of `adt` dereference to `target`.
pub struct DerefImpl {
    pub adt: crate::entity::Adt,
    pub target: u32,
}


/// Kinds of token inside an attribute's argument list.
#[derive(Clone, Copy, Debug, PartialEq, Eq, Hash, Structural)]
pub enum TokenKind {
    Comma,
    Ident,
    Other,
}

#[derive(Clone, Copy, Debug, PartialEq, Eq, Hash, Structural)]
pub struct Token {
    pub kind: TokenKind,
    pub range: TextRange,
    pub text: Name,
}

/// An attribute or a doc comment attached to an item, in source order.
pub struct AttrSyntax {
    pub is_doc_comment: bool,
    pub ptr: SourcePtr,
    pub path_name: Option<Name>,
    /// The tokens of the argument list, `Foo, Bar` in `#[derive(Foo, Bar)]`.
    pub tokens: Vec<Token>,
}

/// The parts of an item's syntax that diagnostics point into.
pub struct ItemSyntax {
    pub ptr: SourcePtr,
    pub name_range: Option<TextRange>,
    pub attrs: Vec<AttrSyntax>,
}

#[derive(Clone, Copy, Debug, PartialEq, Eq, Hash, Structural)]
pub struct PathSegmentSyntax {
    pub name: Name,
    pub name_range: Option<TextRange>,
}

/// A function-like macro invocation `path!(...)`.
pub struct MacroCallSyntax {
    pub ptr: SourcePtr,
    pub segment: Option<PathSegmentSyntax>,
}

/// How a macro is invoked; `item` is an index into the item syntax table.
#[derive(Clone, Copy, Debug, PartialEq, Eq, Hash, Structural)]
pub enum MacroCallKind {
    FnLike { call: u32 },
    Derive { item: u32, attr_index: u32, derive_index: u32 },
    Attr { item: u32, attr_index: u32 },
}

/// What name resolution found wrong, before it is located.
pub enum DefDiagnosticKind {
    UnresolvedModule { decl: SourcePtr, candidates: Vec<Name> },
    UnresolvedExternCrate { decl: SourcePtr },
    UnresolvedImport { decl: SourcePtr },
    UnconfiguredCode { node: SourcePtr, cfg: Name },
    UnresolvedProcMacro { ast: MacroCallKind, krate: u32 },
    UnresolvedMacroCall { ast: MacroCallKind, path: Name },
    MacroError { ast: MacroCallKind, message: Name },
    UnimplementedBuiltinMacro { item: u32 },
    InvalidDeriveTarget { item: u32, attr_index: u32 },
    MalformedDerive { item: u32, attr_index: u32, derive_index: u32 },
}

pub struct DefDiagnostic {
    pub in_module: u32,
    pub kind: DefDiagnosticKind,
}

#[derive(Clone, Copy, Debug, PartialEq, Eq, Hash, Structural)]
pub enum Pat {
    /// A binding; `representative` is the pattern that references resolve to
    /// when the binding is one of several alternatives of an or-pattern.
    Bind { name: Name, mode: BindingMode, representative: u32, is_param: bool },
    Other,
}

/// Diagnostics recorded while lowering a body.
pub enum BodyDiagnostic {
    InactiveCode { node: SourcePtr, cfg: Name },
    MacroError { node: SourcePtr, message: Name },
    UnresolvedProcMacro { node: SourcePtr, krate: u32 },
    UnresolvedMacroCall { node: SourcePtr, path: Name },
}

/// Diagnostics of type inference, by body-relative expression id.
#[derive(Clone, Copy, Debug, PartialEq, Eq, Hash, Structural)]
pub enum InferenceDiagnostic {
    NoSuchField { expr: u32 },
    BreakOutsideOfLoop { expr: u32, is_break: bool },
    MismatchedArgCount { call_expr: u32, expected: u32, found: u32 },
}

#[derive(Clone, Copy, Debug, PartialEq, Eq, Hash, Structural)]
pub struct TypeMismatchRecord {
    pub expr: u32,
    pub expected: u32,
    pub actual: u32,
}

/// A record literal (an expression) or a record pattern.
#[derive(Clone, Copy, Debug, PartialEq, Eq, Hash, Structural)]
pub enum RecordSite {
    Expr(u32),
    Pat(u32),
}

/// Findings of the checks that run after inference.
pub enum ValidationDiagnostic {
    /// `present` lists the field names that the record spells out.
    RecordFields { record: RecordSite, variant: VariantDef, present: Vec<Name> },
    ReplaceFilterMapNextWithFindMap { method_call_expr: u32 },
    MissingMatchArms { match_expr: u32, uncovered_patterns: Name },
}

/// A name that breaks the naming convention of its kind.
#[derive(Clone, Copy, Debug, PartialEq, Eq, Hash, Structural)]
pub struct IncorrectCase {
    pub ptr: SourcePtr,
    pub ident: Name,
    pub suggested: Name,
}

/// A body with its source map: `expr_map[e]` and `pat_map[p]` give the source
/// of a node, or `None` for a node that lowering synthesised.
pub struct Body {
    pub pats: Vec<Pat>,
    /// The inferred type of each pattern.
    pub pat_types: Vec<u32>,
    pub expr_map: Vec<Option<SourcePtr>>,
    pub pat_map: Vec<Option<SourcePtr>>,
    pub env: u32,
    pub block_diagnostics: Vec<DefDiagnostic>,
    pub lowering: Vec<BodyDiagnostic>,
    pub inference: Vec<InferenceDiagnostic>,
    pub mismatches: Vec<TypeMismatchRecord>,
    pub unsafe_exprs: Vec<u32>,
    pub validation: Vec<ValidationDiagnostic>,
    pub incorrect_case: Vec<IncorrectCase>,
}

/// What the trait solver answered for a goal.
#[derive(Clone, Copy, Debug, PartialEq, Eq, Hash, Structural)]
pub enum SolverOutcome {
    /// The goal holds, with one solution.
    Unique,
    /// The goal may hold in more than one way, or cannot be decided yet.
    Ambiguous,
    NoSolution,
}

/// A recorded solver answer for `self_ty: trait_<args>`; unknown types in the
/// goal have already been erased to fresh variables.
pub struct TraitSolution {
    pub trait_: Trait,
    pub self_ty: u32,
    pub args: Vec<u32>,
    pub outcome: SolverOutcome,
}

/// A recorded normalization of the projection `<self_ty as Trait<args>>::alias`.
pub struct Normalization {
    pub alias: TypeAlias,
    pub self_ty: u32,
    pub args: Vec<u32>,
    pub result: u32,
}

/// Traits the language itself knows about.
#[derive(Clone, Copy, Debug, PartialEq, Eq, Hash, Structural)]
pub enum LangItem {
    Copy,
    FnOnce,
    Future,
    IntoFuture,
}

/// The trait a crate registers for a language item.
pub struct LangTrait {
    pub krate: u32,
    pub item: LangItem,
    pub trait_: Trait,
}

/// Where a type parameter comes from.
#[derive(Clone, Copy, Debug, PartialEq, Eq, Hash, Structural)]
pub enum TypeParamProvenance {
    /// Written in a parameter list.
    TypeParamList,
    /// The implicit `Self` of a trait.
    TraitSelf,
    /// An `impl Trait` in argument position.
    ArgumentImplTrait,
}

pub enum TypeOrConstParamData {
    TypeParam {
        name: Option<Name>,
        provenance: TypeParamProvenance,
        /// The placeholder type standing for the parameter.
        ty: u32,
        default: Option<u32>,
        bounds: Vec<Trait>,
    },
    ConstParam { name: Name, ty: u32 },
}

/// The generic parameters a definition declares.
pub struct GenericParamsData {
    pub owner: crate::entity::GenericDef,
    pub env: u32,
    pub lifetimes: Vec<Name>,
    pub type_or_consts: Vec<TypeOrConstParamData>,
}

/// A naming-convention finding about a definition that owns no body.
pub struct CaseRecord {
    pub def: ModuleDef,
    pub case: IncorrectCase,
}

/// A snapshot of everything the facade reads.
pub struct HirDatabase {
    pub crates: Vec<CrateData>,
    pub modules: Vec<ModuleData>,
    pub structs: Vec<AdtData>,
    pub unions: Vec<AdtData>,
    pub enums: Vec<EnumData>,
    pub variants: Vec<VariantData>,
    pub functions: Vec<FunctionData>,
    pub consts: Vec<ConstData>,
    pub statics: Vec<StaticData>,
    pub traits: Vec<TraitData>,
    pub type_aliases: Vec<TypeAliasData>,
    pub macros: Vec<MacroData>,
    pub impls: Vec<ImplData>,
    pub bodies: Vec<Body>,
    pub tys: Vec<TyKind>,
    pub envs: Vec<TraitEnvironment>,
    pub deref_impls: Vec<DerefImpl>,
    pub item_syntax: Vec<ItemSyntax>,
    pub macro_calls: Vec<MacroCallSyntax>,
    pub case_diagnostics: Vec<CaseRecord>,
    pub solutions: Vec<TraitSolution>,
    pub lang_traits: Vec<LangTrait>,
    pub generics: Vec<GenericParamsData>,
    pub normalizations: Vec<Normalization>,
}


impl HirDatabase {
    /// A snapshot that holds nothing yet.
    pub fn empty() -> (r: HirDatabase)
        ensures
            r.crates@.len() == 0,
            r.modules@.len() == 0,
            r.impls@.len() == 0,
            r.tys@.len() == 0,
            r.bodies@.len() == 0,
    {
        HirDatabase {
            crates: Vec::new(),
            modules: Vec::new(),
            structs: Vec::new(),
            unions: Vec::new(),
            enums: Vec::new(),
            variants: Vec::new(),
            functions: Vec::new(),
            consts: Vec::new(),
            statics: Vec::new(),
            traits: Vec::new(),
            type_aliases: Vec::new(),
            macros: Vec::new(),
            impls: Vec::new(),
            bodies: Vec::new(),
            tys: Vec::new(),
            envs: Vec::new(),
            deref_impls: Vec::new(),
            item_syntax: Vec::new(),
            macro_calls: Vec::new(),
            case_diagnostics: Vec::new(),
            solutions: Vec::new(),
            lang_traits: Vec::new(),
            generics: Vec::new(),
            normalizations: Vec::new(),
        }
    }
}

impl Body {
    /// A body with no nodes and no findings, typed in environment `env`.
    pub fn empty(env: u32) -> (r: Body)
        ensures
            r.pats@.len() == 0,
            r.expr_map@.len() == 0,
            r.env == env,
    {
        Body {
            pats: Vec::new(),
            pat_types: Vec::new(),
            expr_map: Vec::new(),
            pat_map: Vec::new(),
            env,
            block_diagnostics: Vec::new(),
            lowering: Vec::new(),
            inference: Vec::new(),
            mismatches: Vec::new(),
            unsafe_exprs: Vec::new(),
            validation: Vec::new(),
            incorrect_case: Vec::new(),
        }
    }

    /// Every binding names, as its representative, a binding of the same
    /// body that is its own representative.
    pub open spec fn wf(&self) -> bool {
        forall|p: int|
            0 <= p < self.pats@.len() ==> (#[trigger] self.pats@[p] matches Pat::Bind {
                representative,
                ..
            } ==> {
                &&& (representative as int) < self.pats@.len()
                &&& self.pats@[representative as int] matches Pat::Bind { representative: r2, .. }
                &&& r2 == representative
            })
    }
}

impl HirDatabase {
    pub open spec fn module_tree_wf(&self) -> bool {
        &&& forall|m: int|
            0 <= m < self.modules@.len() ==> {
                &&& (#[trigger] self.modules@[m]).krate < self.crates@.len()
                &&& (self.modules@[m].parent matches Some(p) ==> {
                    &&& p < m
                    &&& self.modules@[p as int].krate == self.modules@[m].krate
                })
            }
        &&& forall|c: int|
            0 <= c < self.crates@.len() ==> {
                &&& (#[trigger] self.crates@[c]).root_module < self.modules@.len()
                &&& self.modules@[self.crates@[c].root_module as int].krate == c
                &&& self.modules@[self.crates@[c].root_module as int].parent is None
            }
    }

    /// Dependencies point to crates with smaller ids, which keeps the graph acyclic.
    pub open spec fn crate_graph_wf(&self) -> bool {
        forall|c: int, i: int|
            0 <= c < self.crates@.len() && 0 <= i < self.crates@[c].dependencies@.len()
                ==> #[trigger] self.crates@[c].dependencies@[i].krate.id < c
    }

    pub open spec fn bodies_wf(&self) -> bool {
        forall|b: int| 0 <= b < self.bodies@.len() ==> (#[trigger] self.bodies@[b]).wf()
    }

    /// Every definition with a body names a body of the snapshot.
    pub open spec fn bodies_exist(&self) -> bool {
        &&& forall|i: int| 0 <= i < self.functions@.len() ==> (#[trigger] self.functions@[i]).body < self.bodies@.len()
        &&& forall|i: int| 0 <= i < self.consts@.len() ==> (#[trigger] self.consts@[i]).body < self.bodies@.len()
        &&& forall|i: int| 0 <= i < self.statics@.len() ==> (#[trigger] self.statics@[i]).body < self.bodies@.len()
        &&& forall|i: int| 0 <= i < self.variants@.len() ==> (#[trigger] self.variants@[i]).body < self.bodies@.len()
    }

    /// Each module declares only definitions that name it as their module.
    pub open spec fn declarations_wf(&self) -> bool {
        forall|m: int, i: int|
            0 <= m < self.modules@.len() && 0 <= i < self.modules@[m].declarations@.len()
                ==> crate::module_tree::def_module(self, #[trigger] self.modules@[m].declarations@[i]) == Some(m as u32)
    }

    pub open spec fn wf(&self) -> bool {
        &&& self.bodies_exist()
        &&& self.declarations_wf()
        &&& self.module_tree_wf()
        &&& self.crate_graph_wf()
        &&& self.bodies_wf()
    }
}

} // verus!
