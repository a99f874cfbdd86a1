//! Entity handles: copyable ids over the records of a database snapshot,
//! and the closed unions that group them.
use vstd::prelude::*;

verus! {

#[derive(Clone, Copy, Debug, PartialEq, Eq, Hash, Structural)]
pub struct Crate {
    pub id: u32,
}

#[derive(Clone, Copy, Debug, PartialEq, Eq, Hash, Structural)]
pub struct Module {
    pub id: u32,
}

#[derive(Clone, Copy, Debug, PartialEq, Eq, Hash, Structural)]
pub struct Struct {
    pub id: u32,
}

#[derive(Clone, Copy, Debug, PartialEq, Eq, Hash, Structural)]
pub struct Union {
    pub id: u32,
}

#[derive(Clone, Copy, Debug, PartialEq, Eq, Hash, Structural)]
pub struct Enum {
    pub id: u32,
}

#[derive(Clone, Copy, Debug, PartialEq, Eq, Hash, Structural)]
pub struct Variant {
    pub id: u32,
}

#[derive(Clone, Copy, Debug, PartialEq, Eq, Hash, Structural)]
pub struct Function {
    pub id: u32,
}

#[derive(Clone, Copy, Debug, PartialEq, Eq, Hash, Structural)]
pub struct Const {
    pub id: u32,
}

#[derive(Clone, Copy, Debug, PartialEq, Eq, Hash, Structural)]
pub struct Static {
    pub id: u32,
}

#[derive(Clone, Copy, Debug, PartialEq, Eq, Hash, Structural)]
pub struct Trait {
    pub id: u32,
}

#[derive(Clone, Copy, Debug, PartialEq, Eq, Hash, Structural)]
pub struct TypeAlias {
    pub id: u32,
}

#[derive(Clone, Copy, Debug, PartialEq, Eq, Hash, Structural)]
pub struct Macro {
    pub id: u32,
}

#[derive(Clone, Copy, Debug, PartialEq, Eq, Hash, Structural)]
pub struct Impl {
    pub id: u32,
}

/// A field of a struct, union or variant, by its position in the declaration.
#[derive(Clone, Copy, Debug, PartialEq, Eq, Hash, Structural)]
pub struct Field {
    pub parent: VariantDef,
    pub index: u32,
}

/// The `self` parameter of a method.
#[derive(Clone, Copy, Debug, PartialEq, Eq, Hash, Structural)]
pub struct SelfParam {
    pub func: Function,
}

/// A parameter of a function, by its position counting `self`.
#[derive(Clone, Copy, Debug, PartialEq, Eq, Hash, Structural)]
pub struct Param {
    pub func: Function,
    pub idx: u32,
    pub ty: crate::ty::Type,
}

/// A binding pattern inside the body of `parent`.
#[derive(Clone, Copy, Debug, PartialEq, Eq, Hash, Structural)]
pub struct Local {
    pub parent: DefWithBody,
    pub pat_id: u32,
}

#[derive(Clone, Copy, Debug, PartialEq, Eq, Hash, Structural)]
pub enum Adt {
    Struct(Struct),
    Union(Union),
    Enum(Enum),
}

#[derive(Clone, Copy, Debug, PartialEq, Eq, Hash, Structural)]
pub enum VariantDef {
    Struct(Struct),
    Union(Union),
    Variant(Variant),
}

/// The definitions that own an executable body.
#[derive(Clone, Copy, Debug, PartialEq, Eq, Hash, Structural)]
pub enum DefWithBody {
    Function(Function),
    Static(Static),
    Const(Const),
    Variant(Variant),
}

/// Items that live in a trait or an impl.
#[derive(Clone, Copy, Debug, PartialEq, Eq, Hash, Structural)]
pub enum AssocItem {
    Function(Function),
    Const(Const),
    TypeAlias(TypeAlias),
}

#[derive(Clone, Copy, Debug, PartialEq, Eq, Hash, Structural)]
pub enum AssocItemContainer {
    Trait(Trait),
    Impl(Impl),
}

/// What a module can declare.
#[derive(Clone, Copy, Debug, PartialEq, Eq, Hash, Structural)]
pub enum ModuleDef {
    Module(Module),
    Function(Function),
    Adt(Adt),
    Variant(Variant),
    Const(Const),
    Static(Static),
    Trait(Trait),
    TypeAlias(TypeAlias),
    Macro(Macro),
}

/// What a built-in type is.
#[derive(Clone, Copy, Debug, PartialEq, Eq, Hash, Structural)]
pub enum BuiltinKind {
    Scalar(crate::db::Scalar),
    Str,
}

/// A type built into the language.
#[derive(Clone, Copy, Debug, PartialEq, Eq, Hash, Structural)]
pub struct BuiltinType {
    pub inner: BuiltinKind,
}

/// The definitions that can declare generic parameters.
#[derive(Clone, Copy, Debug, PartialEq, Eq, Hash, Structural)]
pub enum GenericDef {
    Function(Function),
    Adt(Adt),
    Trait(Trait),
    TypeAlias(TypeAlias),
    Impl(Impl),
    Variant(Variant),
    Const(Const),
}

/// A type or const parameter slot of a generic definition, by position.
#[derive(Clone, Copy, Debug, PartialEq, Eq, Hash, Structural)]
pub struct TypeOrConstParam {
    pub parent: GenericDef,
    pub local_id: u32,
}

/// A slot of [`TypeOrConstParam`] known to hold a type parameter.
#[derive(Clone, Copy, Debug, PartialEq, Eq, Hash, Structural)]
pub struct TypeParam {
    pub parent: GenericDef,
    pub local_id: u32,
}

/// A slot of [`TypeOrConstParam`] known to hold a const parameter.
#[derive(Clone, Copy, Debug, PartialEq, Eq, Hash, Structural)]
pub struct ConstParam {
    pub parent: GenericDef,
    pub local_id: u32,
}

#[derive(Clone, Copy, Debug, PartialEq, Eq, Hash, Structural)]
pub struct LifetimeParam {
    pub parent: GenericDef,
    pub local_id: u32,
}

#[derive(Clone, Copy, Debug, PartialEq, Eq, Hash, Structural)]
pub enum GenericParam {
    TypeParam(TypeParam),
    ConstParam(ConstParam),
    LifetimeParam(LifetimeParam),
}

/// One entry of a module scope; `Unknown` marks a name whose definitions are
/// all hidden from the requesting module.
#[derive(Clone, Copy, Debug, PartialEq, Eq, Hash, Structural)]
pub enum ScopeDef {
    ModuleDef(ModuleDef),
    Unknown,
}

} // verus!
