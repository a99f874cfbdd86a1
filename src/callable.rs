//! Callable types: what a call to a function, closure or function pointer
//! takes and returns.
use vstd::prelude::*;
use crate::db::{HirDatabase, SourcePtr, TyKind};
use crate::entity::Function;
use crate::ty::Type;

verus! {

/// What is being called.
#[derive(Clone, Copy, Debug, PartialEq, Eq, Hash, Structural)]
pub enum CallableKind {
    Function(Function),
    Closure,
    FnPtr,
}

/// Where a parameter is written: the `self` parameter, or a pattern.
#[derive(Clone, Copy, Debug, PartialEq, Eq, Hash, Structural)]
pub enum ParamSource {
    SelfParam(SourcePtr),
    Pat(SourcePtr),
}

/// A callable type with its signature; with `is_bound_method` the first
/// parameter is the receiver, already supplied.
#[derive(Clone, Debug, PartialEq, Eq)]
pub struct Callable {
    pub ty: Type,
    pub kind: CallableKind,
    pub params: Vec<u32>,
    pub ret: u32,
    pub is_bound_method: bool,
}

/// The signature of callable type `t`: parameter types and return type. A
/// closure or function pointer lists its parameters and then its return type.
pub open spec fn callable_sig(db: &HirDatabase, t: u32) -> Option<(CallableKind, Seq<u32>, u32)> {
    if t < db.tys@.len() {
        match db.tys@[t as int] {
            TyKind::FnDef { func, .. } => if func.id < db.functions@.len() {
                Some((CallableKind::Function(func), db.functions@[func.id as int].params@, db.functions@[func.id as int].ret_type))
            } else {
                None
            },
            TyKind::Closure { args } => if args@.len() > 0 {
                Some((CallableKind::Closure, args@.drop_last(), args@.last()))
            } else {
                None
            },
            TyKind::FnPtr { args } => if args@.len() > 0 {
                Some((CallableKind::FnPtr, args@.drop_last(), args@.last()))
            } else {
                None
            },
            _ => None,
        }
    } else {
        None
    }
}

fn copy_ids(v: &Vec<u32>, n: usize) -> (r: Vec<u32>)
    requires
        n <= v@.len(),
    ensures
        r@ == v@.take(n as int),
{
    let mut r: Vec<u32> = Vec::new();
    let mut i: usize = 0;
    while i < n
        invariant
            i <= n <= v@.len(),
            r@ == v@.take(i as int),
        decreases n - i,
    {
        r.push(v[i]);
        i = i + 1;
        assert(r@ =~= v@.take(i as int));
    }
    r
}

impl Type {
    /// This type as something that can be called, with its signature.
    pub fn as_callable(&self, db: &HirDatabase) -> (r: Option<Callable>)
        ensures
            match callable_sig(db, self.ty) {
                Some((kind, params, ret)) => r matches Some(c) && c.ty == *self && c.kind == kind && c.params@ == params
                    && c.ret == ret && !c.is_bound_method,
                None => r is None,
            },
    {
        if (self.ty as usize) >= db.tys.len() {
            return None;
        }
        match &db.tys[self.ty as usize] {
            TyKind::FnDef { func, .. } => {
                if (func.id as usize) < db.functions.len() {
                    let data = &db.functions[func.id as usize];
                    let params = copy_ids(&data.params, data.params.len());
                    assert(data.params@.take(data.params@.len() as int) =~= data.params@);
                    Some(Callable { ty: *self, kind: CallableKind::Function(*func), params, ret: data.ret_type, is_bound_method: false })
                } else {
                    None
                }
            },
            TyKind::Closure { args } => {
                if args.len() > 0 {
                    let params = copy_ids(args, args.len() - 1);
                    Some(Callable { ty: *self, kind: CallableKind::Closure, params, ret: args[args.len() - 1], is_bound_method: false })
                } else {
                    None
                }
            },
            TyKind::FnPtr { args } => {
                if args.len() > 0 {
                    let params = copy_ids(args, args.len() - 1);
                    Some(Callable { ty: *self, kind: CallableKind::FnPtr, params, ret: args[args.len() - 1], is_bound_method: false })
                } else {
                    None
                }
            },
            _ => None,
        }
    }
}

/// The written parameters of a callable, in order: `self` (unless it is
/// already bound) and then the other parameters' patterns.
pub open spec fn param_sources(db: &HirDatabase, c: Callable) -> Seq<Option<ParamSource>> {
    match c.kind {
        CallableKind::Function(f) => if f.id < db.functions@.len() {
            match db.functions@[f.id as int].param_list {
                Some(pl) => (match pl.self_param {
                    Some(p) => if c.is_bound_method { Seq::empty() } else { seq![Some(ParamSource::SelfParam(p))] },
                    None => Seq::empty(),
                }) + pl.params@.map_values(|p: Option<SourcePtr>| match p {
                    Some(ptr) => Some(ParamSource::Pat(ptr)),
                    None => None,
                }),
                None => Seq::empty(),
            }
        } else {
            Seq::empty()
        },
        _ => Seq::empty(),
    }
}

impl Callable {
    /// The parameter types a call supplies: the receiver of a bound method is not one.
    pub open spec fn arg_types(self) -> Seq<u32> {
        if self.is_bound_method && self.params@.len() > 0 {
            self.params@.drop_first()
        } else {
            self.params@
        }
    }

    pub fn kind(&self) -> (r: CallableKind)
        ensures
            r == self.kind,
    {
        self.kind
    }

    /// Where the receiver of a bound method is written.
    pub fn receiver_param(&self, db: &HirDatabase) -> (r: Option<SourcePtr>)
        ensures
            r == match self.kind {
                CallableKind::Function(f) => if self.is_bound_method && f.id < db.functions@.len() {
                    match db.functions@[f.id as int].param_list {
                        Some(pl) => pl.self_param,
                        None => None,
                    }
                } else {
                    None
                },
                _ => None,
            },
    {
        match self.kind {
            CallableKind::Function(f) => {
                if self.is_bound_method && (f.id as usize) < db.functions.len() {
                    match &db.functions[f.id as usize].param_list {
                        Some(pl) => pl.self_param,
                        None => None,
                    }
                } else {
                    None
                }
            },
            _ => None,
        }
    }

    pub fn n_params(&self) -> (r: usize)
        ensures
            r == self.arg_types().len(),
    {
        if self.is_bound_method && self.params.len() > 0 {
            self.params.len() - 1
        } else {
            self.params.len()
        }
    }

    pub fn return_type(&self) -> (r: Type)
        ensures
            r == (Type { ty: self.ret, env: self.ty.env }),
    {
        self.ty.derived(self.ret)
    }

    /// Each argument type with where its parameter is written, when it is.
    pub fn params(&self, db: &HirDatabase) -> (r: Vec<(Option<ParamSource>, Type)>)
        ensures
            r@.len() == self.arg_types().len(),
            forall|i: int| 0 <= i < r@.len() ==> #[trigger] r@[i] == (
                if i < param_sources(db, *self).len() { param_sources(db, *self)[i] } else { None },
                Type { ty: self.arg_types()[i], env: self.ty.env },
            ),
    {
        let ghost sources = param_sources(db, *self);
        let mut patterns: Vec<Option<ParamSource>> = Vec::new();
        match self.kind {
            CallableKind::Function(f) => {
                if (f.id as usize) < db.functions.len() {
                    match &db.functions[f.id as usize].param_list {
                        Some(pl) => {
                            match pl.self_param {
                                Some(p) => if !self.is_bound_method {
                                    patterns.push(Some(ParamSource::SelfParam(p)));
                                },
                                None => {},
                            }
                            let ghost head = patterns@;
                            let mut j: usize = 0;
                            while j < pl.params.len()
                                invariant
                                    j <= pl.params@.len(),
                                    patterns@ == head + pl.params@.take(j as int).map_values(|p: Option<SourcePtr>| match p {
                                        Some(ptr) => Some(ParamSource::Pat(ptr)),
                                        None => None,
                                    }),
                                decreases pl.params@.len() - j,
                            {
                                let s = match pl.params[j] {
                                    Some(ptr) => Some(ParamSource::Pat(ptr)),
                                    None => None,
                                };
                                patterns.push(s);
                                j = j + 1;
                                assert(patterns@ =~= head + pl.params@.take(j as int).map_values(|p: Option<SourcePtr>| match p {
                                    Some(ptr) => Some(ParamSource::Pat(ptr)),
                                    None => None,
                                }));
                            }
                            assert(pl.params@.take(j as int) =~= pl.params@);
                        },
                        None => {},
                    }
                }
            },
            _ => {},
        }
        assert(patterns@ =~= sources);
        let skip: usize = if self.is_bound_method && self.params.len() > 0 { 1 } else { 0 };
        let mut r: Vec<(Option<ParamSource>, Type)> = Vec::new();
        let mut i: usize = skip;
        while i < self.params.len()
            invariant
                skip <= i <= self.params@.len(),
                skip == (if self.is_bound_method && self.params@.len() > 0 { 1int } else { 0int }),
                patterns@ == sources,
                sources == param_sources(db, *self),
                r@.len() == i - skip,
                forall|k: int| 0 <= k < r@.len() ==> #[trigger] r@[k] == (
                    if k < sources.len() { sources[k] } else { None },
                    Type { ty: self.arg_types()[k], env: self.ty.env },
                ),
            decreases self.params@.len() - i,
        {
            let k = i - skip;
            let src = if k < patterns.len() { patterns[k] } else { None };
            r.push((src, self.ty.derived(self.params[i])));
            i = i + 1;
        }
        r
    }
}

} // verus!
