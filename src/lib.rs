//! A semantic facade over an indexed definition database, for editor tooling.
//!
//! - [`db`]: the snapshot the facade reads, as plain records in arenas
//!   addressed by integer ids, with its well-formedness invariant.
//! - [`entity`]: copyable identity handles and the closed unions over them.
//! - [`graph`], [`module_tree`], [`items`], [`generics`]: what a handle
//!   denotes: crate dependencies, the module tree, scopes and visibility,
//!   item properties, generic parameters, locals.
//! - [`ty`], [`callable`], [`resolve`]: types bound to a trait environment,
//!   with trait queries, autoderef, structural walks, callable signatures,
//!   and impl and method candidate search.
//! - [`diagnostics`]: turns the diagnostics of name resolution, body
//!   lowering, inference and validation into one stream of located
//!   diagnostics.

pub mod db;
pub mod entity;
pub mod generics;
pub mod graph;
pub mod module_tree;
pub mod items;
pub mod ty;
pub mod callable;
pub mod resolve;
pub mod diagnostics;
