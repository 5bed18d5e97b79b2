//! The lexical and nominal environment.
//!
//! A context holds the const bindings and declarations of one scope, the
//! method tables of its registered impls, and a registry of nominal
//! types with their declared super types. Contexts form a stack through
//! `grow` and `pop`: each frame owns its locals and can read outer
//! frames. The nominal registry resolves a type by its qualified name
//! and yields the chain walked by attribute lookup and projection
//! resolution, in declaration order.

use vstd::prelude::*;
use crate::error::{ErrorKind, EvalError, EvalResult, Location};
use crate::ast::{Ident, Token};
use crate::ty::{
    TyBound, TyBoundV, Type, TypeV, bound_view, bounds_view, lemma_bounds_view, type_view,
};
use crate::value::{Value, ValueV, Visibility, value_view};
use crate::deep::{bounds_dup, str_eq, type_dup, types_dup, value_dup};

verus! {

/// How a registration round is run.
#[derive(Clone, Copy, Debug, PartialEq, Eq, Structural)]
pub enum RegistrationMode {
    Normal,
    PreRegister,
}

/// The rule a scope was made under.
#[derive(Clone, Copy, Debug, PartialEq, Eq, Structural)]
pub enum ContextKind {
    /// A module scope.
    Module,
    /// A transient scope pushed to evaluate one definition body.
    Instant,
}

/// The bounds a quantified signature was instantiated under.
#[derive(Debug)]
pub struct TyVarContext {
    pub level: usize,
    pub bounds: Vec<TyBound>,
}

impl TyVarContext {
    /// Builds an instantiation context from bounds.
    pub fn new(level: usize, bounds: Vec<TyBound>) -> (r: TyVarContext)
        ensures
            r.level == level,
            bounds_view(r.bounds@) == bounds_view(bounds@),
    {
        TyVarContext { level, bounds }
    }
}

/// What an entry of a method table was defined for: a plain class, or a
/// trait impl carrying the implemented trait.
#[derive(Debug)]
pub enum ClassDefType {
    Simple(Type),
    ImplTrait { class: Type, impl_trait: Type },
}

/// A registered nominal type: its canonical form, its declared super
/// types in declaration order, and the context holding its consts and
/// method tables.
#[derive(Debug)]
pub struct NominalEntry {
    pub typ: Type,
    pub supers: Vec<Type>,
    pub ctx: Context,
}

/// One scope of the environment.
#[derive(Debug)]
pub struct Context {
    pub name: String,
    pub kind: ContextKind,
    pub vis: Visibility,
    pub level: usize,
    /// The names of the formal type parameters of the type this scope
    /// describes; anonymous parameters carry nothing.
    pub params: Vec<Option<String>>,
    /// The bounds on those parameters.
    pub bounds: Vec<TyBound>,
    pub consts: Vec<(String, Value)>,
    pub decls: Vec<(String, Type)>,
    pub methods_list: Vec<(ClassDefType, Context)>,
    pub nominals: Vec<NominalEntry>,
    pub tv_ctx: Option<TyVarContext>,
    /// The input handle carried into diagnostics.
    pub input: String,
    pub outer: Option<Box<Context>>,
}

// ---------------------------------------------------------------------
// Ghost mirrors and views.
// ---------------------------------------------------------------------

#[verifier::ext_equal]
pub ghost struct TyVarContextV {
    pub level: nat,
    pub bounds: Seq<TyBoundV>,
}

#[verifier::ext_equal]
pub ghost enum ClassDefTypeV {
    Simple(TypeV),
    ImplTrait { class: TypeV, impl_trait: TypeV },
}

#[verifier::ext_equal]
pub ghost struct NominalEntryV {
    pub typ: TypeV,
    pub supers: Seq<TypeV>,
    pub ctx: ContextV,
}

#[verifier::ext_equal]
pub ghost struct ContextV {
    pub name: Seq<char>,
    pub kind: ContextKind,
    pub vis: Visibility,
    pub level: nat,
    pub params: Seq<Option<Seq<char>>>,
    pub bounds: Seq<TyBoundV>,
    pub consts: Seq<(Seq<char>, ValueV)>,
    pub decls: Seq<(Seq<char>, TypeV)>,
    pub methods_list: Seq<(ClassDefTypeV, ContextV)>,
    pub nominals: Seq<NominalEntryV>,
    pub tv_ctx: Option<TyVarContextV>,
    pub input: Seq<char>,
    pub outer: Option<Box<ContextV>>,
}

pub open spec fn tvctx_view(t: TyVarContext) -> TyVarContextV {
    TyVarContextV { level: t.level as nat, bounds: bounds_view(t.bounds@) }
}

pub open spec fn classdef_view(c: ClassDefType) -> ClassDefTypeV
    decreases c,
{
    match c {
        ClassDefType::Simple(t) => ClassDefTypeV::Simple(type_view(t)),
        ClassDefType::ImplTrait { class, impl_trait } => ClassDefTypeV::ImplTrait {
            class: type_view(class),
            impl_trait: type_view(impl_trait),
        },
    }
}

pub open spec fn nominal_view(e: NominalEntry) -> NominalEntryV
    decreases e,
{
    NominalEntryV {
        typ: type_view(e.typ),
        supers: crate::ty::types_view(e.supers@),
        ctx: ctx_view(e.ctx),
    }
}

pub open spec fn ctx_view(c: Context) -> ContextV
    decreases c,
{
    ContextV {
        name: c.name@,
        kind: c.kind,
        vis: c.vis,
        level: c.level as nat,
        params: c.params@.map_values(|o: Option<String>| crate::ty::opt_str_view(o)),
        bounds: bounds_view(c.bounds@),
        consts: crate::value::kw_values_view(c.consts@),
        decls: decls_view(c.decls@),
        methods_list: methods_view(c.methods_list@),
        nominals: nominals_view(c.nominals@),
        tv_ctx: match c.tv_ctx {
            Some(t) => Some(tvctx_view(t)),
            None => None,
        },
        input: c.input@,
        outer: match c.outer {
            Some(b) => Some(Box::new(ctx_view(*b))),
            None => None,
        },
    }
}

pub open spec fn decls_view(s: Seq<(String, Type)>) -> Seq<(Seq<char>, TypeV)>
    decreases s,
{
    if s.len() == 0 {
        Seq::empty()
    } else {
        decls_view(s.drop_last()).push((s.last().0@, type_view(s.last().1)))
    }
}

pub open spec fn methods_view(s: Seq<(ClassDefType, Context)>) -> Seq<(ClassDefTypeV, ContextV)>
    decreases s,
{
    if s.len() == 0 {
        Seq::empty()
    } else {
        methods_view(s.drop_last()).push(
            (classdef_view(s.last().0), ctx_view(s.last().1)),
        )
    }
}

pub open spec fn nominals_view(s: Seq<NominalEntry>) -> Seq<NominalEntryV>
    decreases s,
{
    if s.len() == 0 {
        Seq::empty()
    } else {
        nominals_view(s.drop_last()).push(nominal_view(s.last()))
    }
}

pub proof fn lemma_decls_view(s: Seq<(String, Type)>)
    ensures
        decls_view(s).len() == s.len(),
        forall|i: int| 0 <= i < s.len() ==> decls_view(s)[i] == (s[i].0@, type_view(s[i].1)),
    decreases s,
{
    if s.len() > 0 {
        lemma_decls_view(s.drop_last());
    }
}

pub proof fn lemma_methods_view(s: Seq<(ClassDefType, Context)>)
    ensures
        methods_view(s).len() == s.len(),
        forall|i: int| 0 <= i < s.len() ==> methods_view(s)[i] == (
        classdef_view(s[i].0),
        ctx_view(s[i].1),
        ),
    decreases s,
{
    if s.len() > 0 {
        lemma_methods_view(s.drop_last());
    }
}

pub proof fn lemma_nominals_view(s: Seq<NominalEntry>)
    ensures
        nominals_view(s).len() == s.len(),
        forall|i: int| 0 <= i < s.len() ==> nominals_view(s)[i] == nominal_view(s[i]),
    decreases s,
{
    if s.len() > 0 {
        lemma_nominals_view(s.drop_last());
    }
}

// ---------------------------------------------------------------------
// Lookup of constants.
// ---------------------------------------------------------------------

/// The first value bound under a name in a const table.
pub open spec fn consts_get(s: Seq<(Seq<char>, ValueV)>, name: Seq<char>) -> Option<ValueV>
    decreases s.len(),
{
    if s.len() == 0 {
        None
    } else if s[0].0 == name {
        Some(s[0].1)
    } else {
        consts_get(s.drop_first(), name)
    }
}

/// The first value bound under a name, searching this scope and then
/// the enclosing ones.
pub open spec fn rec_consts_get(c: ContextV, name: Seq<char>) -> Option<ValueV>
    decreases c,
{
    match consts_get(c.consts, name) {
        Some(v) => Some(v),
        None => match c.outer {
            Some(o) => rec_consts_get(*o, name),
            None => None,
        },
    }
}

impl Context {
    /// Looks a name up in this scope's const table alone.
    #[verifier::loop_isolation(false)]
    pub fn local_get_const(&self, name: &str) -> (r: Option<Value>)
        ensures
            match r {
                Some(v) => consts_get(ctx_view(*self).consts, name@) == Some(value_view(v)),
                None => consts_get(ctx_view(*self).consts, name@) is None,
            },
    {
        proof {
            crate::value::lemma_kw_values_view(self.consts@);
            assert(ctx_view(*self).consts.subrange(0, self.consts@.len() as int)
                =~= ctx_view(*self).consts);
        }
        let n = self.consts.len();
        let mut i: usize = 0;
        while i < n
            invariant
                i <= n,
                n == self.consts@.len(),
                consts_get(ctx_view(*self).consts, name@) == consts_get(
                    ctx_view(*self).consts.subrange(i as int, n as int),
                    name@,
                ),
            decreases n - i,
        {
            let ghost pre = ctx_view(*self).consts.subrange(i as int, n as int);
            proof {
                assert(pre[0] == (self.consts@[i as int].0@, value_view(self.consts@[i as int].1)));
                assert(pre.drop_first() =~= ctx_view(*self).consts.subrange(
                    i as int + 1,
                    n as int,
                ));
            }
            if str_eq(self.consts[i].0.as_str(), name) {
                return Some(value_dup(&self.consts[i].1));
            }
            i = i + 1;
        }
        None
    }

    /// Looks a name up in this scope and then outward. The returned
    /// value is a fresh copy of the binding.
    pub fn rec_get_const_obj(&self, name: &str) -> (r: Option<Value>)
        ensures
            match r {
                Some(v) => rec_consts_get(ctx_view(*self), name@) == Some(value_view(v)),
                None => rec_consts_get(ctx_view(*self), name@) is None,
            },
        decreases *self,
    {
        match self.local_get_const(name) {
            Some(v) => Some(v),
            None => match &self.outer {
                Some(o) => {
                    let out: &Context = o;
                    proof {
                        assert(ctx_view(*self).outer == Some(Box::new(ctx_view(*out))));
                    }
                    out.rec_get_const_obj(name)
                },
                None => None,
            },
        }
    }

    /// Looks a symbol up in this scope's const table alone, as the
    /// projection search does on each candidate scope.
    pub fn get_const_local(&self, tok: &Token, _namespace: &String) -> (r: EvalResult<Value>)
        ensures
            match r {
                Ok(v) => consts_get(ctx_view(*self).consts, tok.content@) == Some(value_view(v)),
                Err(e) => consts_get(ctx_view(*self).consts, tok.content@) is None && e.kind
                    == ErrorKind::NoVar,
            },
    {
        match self.local_get_const(tok.content.as_str()) {
            Some(v) => Ok(v),
            None => Err(
                EvalError::new(ErrorKind::NoVar, tok.loc, self.name.clone()),
            ),
        }
    }

    /// A hint for misspelt names: the first constant, searching this
    /// scope and then outward, whose name matches case-insensitively
    /// but not exactly.
    pub fn get_similar_name(&self, name: &str) -> (r: Option<String>)
        ensures
            match r {
                Some(s) => similar_get(ctx_view(*self), name@) == Some(s@),
                None => similar_get(ctx_view(*self), name@) is None,
            },
        decreases *self,
    {
        match self.local_similar(name) {
            Some(s) => Some(s),
            None => match &self.outer {
                Some(o) => {
                    let out: &Context = o;
                    proof {
                        assert(ctx_view(*self).outer == Some(Box::new(ctx_view(*out))));
                    }
                    out.get_similar_name(name)
                },
                None => None,
            },
        }
    }

    /// The local step of the hint search.
    #[verifier::loop_isolation(false)]
    fn local_similar(&self, name: &str) -> (r: Option<String>)
        ensures
            match r {
                Some(s) => similar_local(ctx_view(*self).consts, name@) == Some(s@),
                None => similar_local(ctx_view(*self).consts, name@) is None,
            },
    {
        proof {
            crate::value::lemma_kw_values_view(self.consts@);
            assert(ctx_view(*self).consts.subrange(0, self.consts@.len() as int)
                =~= ctx_view(*self).consts);
        }
        let n = self.consts.len();
        let mut i: usize = 0;
        while i < n
            invariant
                i <= n,
                n == self.consts@.len(),
                similar_local(ctx_view(*self).consts, name@) == similar_local(
                    ctx_view(*self).consts.subrange(i as int, n as int),
                    name@,
                ),
            decreases n - i,
        {
            let ghost pre = ctx_view(*self).consts.subrange(i as int, n as int);
            proof {
                assert(pre[0] == (self.consts@[i as int].0@, value_view(self.consts@[i as int].1)));
                assert(pre.drop_first() =~= ctx_view(*self).consts.subrange(
                    i as int + 1,
                    n as int,
                ));
            }
            let cand = self.consts[i].0.as_str();
            if eq_ignore_ascii_case(cand, name) && !str_eq(self.consts[i].0.as_str(), name) {
                return Some(self.consts[i].0.clone());
            }
            i = i + 1;
        }
        None
    }
}

/// Lower-cases an ASCII letter, in the model.
pub open spec fn lower_char(c: char) -> char {
    if 'A' <= c <= 'Z' {
        (((c as int) + 32) as char)
    } else {
        c
    }
}

/// Case-insensitive equality of names, by ASCII letter folding.
pub open spec fn eq_ci(a: Seq<char>, b: Seq<char>) -> bool {
    a.len() == b.len() && forall|i: int| 0 <= i < a.len() ==> lower_char(a[i]) == lower_char(b[i])
}

/// Decides case-insensitive equality.
#[verifier::loop_isolation(false)]
pub fn eq_ignore_ascii_case(a: &str, b: &str) -> (r: bool)
    ensures
        r == eq_ci(a@, b@),
{
    let na = a.unicode_len();
    let nb = b.unicode_len();
    if na != nb {
        return false;
    }
    let mut i: usize = 0;
    while i < na
        invariant
            i <= na,
            na == a@.len() && na == b@.len(),
            forall|j: int| 0 <= j < i ==> lower_char(a@[j]) == lower_char(b@[j]),
        decreases na - i,
    {
        let ca = a.get_char(i);
        let cb = b.get_char(i);
        let la: u32 = if 'A' <= ca && ca <= 'Z' {
            (ca as u32) + 32
        } else {
            ca as u32
        };
        let lb: u32 = if 'A' <= cb && cb <= 'Z' {
            (cb as u32) + 32
        } else {
            cb as u32
        };
        if la != lb {
            proof {
                lemma_lower_char_u32(a@[i as int]);
                lemma_lower_char_u32(b@[i as int]);
                assert(lower_char(a@[i as int]) as int != lower_char(b@[i as int]) as int);
            }
            return false;
        }
        proof {
            lemma_lower_char_u32(a@[i as int]);
            lemma_lower_char_u32(b@[i as int]);
            assert(lower_char(a@[i as int]) as int == lower_char(b@[i as int]) as int);
            assert(lower_char(a@[i as int]) == lower_char(b@[i as int])) by {
                lemma_char_by_int(lower_char(a@[i as int]), lower_char(b@[i as int]));
            }
        }
        i = i + 1;
    }
    true
}

/// Folding an ASCII letter lands on its lower-case code point.
proof fn lemma_lower_char_u32(c: char)
    ensures
        lower_char(c) as int == if 'A' <= c <= 'Z' {
            (c as int) + 32
        } else {
            c as int
        },
{
    if 'A' <= c <= 'Z' {
        assert('A' as int == 65 && 'Z' as int == 90);
        assert(97 <= (c as int) + 32 <= 122);
        assert((((c as int) + 32) as char) as int == (c as int) + 32);
    }
}

/// Characters with one code point are one character.
proof fn lemma_char_by_int(a: char, b: char)
    requires
        a as int == b as int,
    ensures
        a == b,
{
}

/// The model of the hint search over one const table.
pub open spec fn similar_local(s: Seq<(Seq<char>, ValueV)>, name: Seq<char>) -> Option<Seq<char>>
    decreases s.len(),
{
    if s.len() == 0 {
        None
    } else if eq_ci(s[0].0, name) && s[0].0 != name {
        Some(s[0].0)
    } else {
        similar_local(s.drop_first(), name)
    }
}

/// The model of the hint search over the scope chain.
pub open spec fn similar_get(c: ContextV, name: Seq<char>) -> Option<Seq<char>>
    decreases c,
{
    match similar_local(c.consts, name) {
        Some(s) => Some(s),
        None => match c.outer {
            Some(o) => similar_get(*o, name),
            None => None,
        },
    }
}


// ---------------------------------------------------------------------
// Duplication of scopes.
// ---------------------------------------------------------------------

/// Copies a const table.
#[verifier::loop_isolation(false)]
pub fn consts_dup(v: &Vec<(String, Value)>) -> (r: Vec<(String, Value)>)
    ensures
        crate::value::kw_values_view(r@) == crate::value::kw_values_view(v@),
    decreases v@,
{
    proof {
        crate::value::lemma_kw_values_view(v@);
    }
    let n = v.len();
    let mut out: Vec<(String, Value)> = Vec::new();
    let mut i: usize = 0;
    while i < n
        invariant
            i <= n,
            n == v@.len(),
            out@.len() == i,
            forall|j: int| 0 <= j < i ==> out@[j].0@ == v@[j].0@ && value_view(out@[j].1)
                == value_view(v@[j].1),
        decreases n - i,
    {
        proof {
            assert(decreases_to!(v@ => v@[i as int]));
            assert(decreases_to!(v@[i as int] => v@[i as int].1));
        }
        let name = v[i].0.clone();
        let val = value_dup(&v[i].1);
        out.push((name, val));
        i = i + 1;
    }
    proof {
        crate::value::lemma_kw_values_view(out@);
        assert(crate::value::kw_values_view(out@) =~= crate::value::kw_values_view(v@));
    }
    out
}

/// Copies a declaration table.
#[verifier::loop_isolation(false)]
pub fn decls_dup(v: &Vec<(String, Type)>) -> (r: Vec<(String, Type)>)
    ensures
        decls_view(r@) == decls_view(v@),
    decreases v@,
{
    proof {
        lemma_decls_view(v@);
    }
    let n = v.len();
    let mut out: Vec<(String, Type)> = Vec::new();
    let mut i: usize = 0;
    while i < n
        invariant
            i <= n,
            n == v@.len(),
            out@.len() == i,
            forall|j: int| 0 <= j < i ==> out@[j].0@ == v@[j].0@ && type_view(out@[j].1)
                == type_view(v@[j].1),
        decreases n - i,
    {
        proof {
            assert(decreases_to!(v@ => v@[i as int]));
            assert(decreases_to!(v@[i as int] => v@[i as int].1));
        }
        let name = v[i].0.clone();
        let t = type_dup(&v[i].1);
        out.push((name, t));
        i = i + 1;
    }
    proof {
        lemma_decls_view(out@);
        assert(decls_view(out@) =~= decls_view(v@));
    }
    out
}

/// Copies an optional name list.
#[verifier::loop_isolation(false)]
pub fn params_dup(v: &Vec<Option<String>>) -> (r: Vec<Option<String>>)
    ensures
        r@.map_values(|o: Option<String>| crate::ty::opt_str_view(o)) == v@.map_values(
            |o: Option<String>| crate::ty::opt_str_view(o),
        ),
{
    let n = v.len();
    let mut out: Vec<Option<String>> = Vec::new();
    let mut i: usize = 0;
    while i < n
        invariant
            i <= n,
            n == v@.len(),
            out@.len() == i,
            forall|j: int| 0 <= j < i ==> crate::ty::opt_str_view(out@[j]) == crate::ty::opt_str_view(
                v@[j],
            ),
        decreases n - i,
    {
        let o = crate::deep::opt_str_dup(&v[i]);
        out.push(o);
        i = i + 1;
    }
    proof {
        assert(out@.map_values(|o: Option<String>| crate::ty::opt_str_view(o)) =~= v@.map_values(
            |o: Option<String>| crate::ty::opt_str_view(o),
        ));
    }
    out
}

/// Copies one class-definition tag.
pub fn classdef_dup(c: &ClassDefType) -> (r: ClassDefType)
    ensures
        classdef_view(r) == classdef_view(*c),
    decreases *c,
{
    match c {
        ClassDefType::Simple(t) => ClassDefType::Simple(type_dup(t)),
        ClassDefType::ImplTrait { class, impl_trait } => ClassDefType::ImplTrait {
            class: type_dup(class),
            impl_trait: type_dup(impl_trait),
        },
    }
}

/// Copies a method table list.
#[verifier::loop_isolation(false)]
pub fn methods_dup(v: &Vec<(ClassDefType, Context)>) -> (r: Vec<(ClassDefType, Context)>)
    ensures
        methods_view(r@) == methods_view(v@),
    decreases v@,
{
    proof {
        lemma_methods_view(v@);
    }
    let n = v.len();
    let mut out: Vec<(ClassDefType, Context)> = Vec::new();
    let mut i: usize = 0;
    while i < n
        invariant
            i <= n,
            n == v@.len(),
            out@.len() == i,
            forall|j: int| 0 <= j < i ==> classdef_view(out@[j].0) == classdef_view(v@[j].0)
                && ctx_view(out@[j].1) == ctx_view(v@[j].1),
        decreases n - i,
    {
        proof {
            assert(decreases_to!(v@ => v@[i as int]));
            assert(decreases_to!(v@[i as int] => v@[i as int].0));
            assert(decreases_to!(v@[i as int] => v@[i as int].1));
        }
        let cd = classdef_dup(&v[i].0);
        let cx = ctx_dup(&v[i].1);
        out.push((cd, cx));
        i = i + 1;
    }
    proof {
        lemma_methods_view(out@);
        assert(methods_view(out@) =~= methods_view(v@));
    }
    out
}

/// Copies one nominal entry.
pub fn nominal_dup(e: &NominalEntry) -> (r: NominalEntry)
    ensures
        nominal_view(r) == nominal_view(*e),
    decreases *e,
{
    NominalEntry { typ: type_dup(&e.typ), supers: types_dup(&e.supers), ctx: ctx_dup(&e.ctx) }
}

/// Copies a nominal registry.
#[verifier::loop_isolation(false)]
pub fn nominals_dup(v: &Vec<NominalEntry>) -> (r: Vec<NominalEntry>)
    ensures
        nominals_view(r@) == nominals_view(v@),
    decreases v@,
{
    proof {
        lemma_nominals_view(v@);
    }
    let n = v.len();
    let mut out: Vec<NominalEntry> = Vec::new();
    let mut i: usize = 0;
    while i < n
        invariant
            i <= n,
            n == v@.len(),
            out@.len() == i,
            forall|j: int| 0 <= j < i ==> nominal_view(out@[j]) == nominal_view(v@[j]),
        decreases n - i,
    {
        proof {
            assert(decreases_to!(v@ => v@[i as int]));
        }
        let e = nominal_dup(&v[i]);
        out.push(e);
        i = i + 1;
    }
    proof {
        lemma_nominals_view(out@);
        assert(nominals_view(out@) =~= nominals_view(v@));
    }
    out
}

/// Copies a whole scope, outer frames included.
pub fn ctx_dup(c: &Context) -> (r: Context)
    ensures
        ctx_view(r) == ctx_view(*c),
    decreases *c,
{
    let outer: Option<Box<Context>> = match &c.outer {
        Some(o) => {
            let inner: &Context = o;
            proof {
                assert(ctx_view(*c).outer == Some(Box::new(ctx_view(*inner))));
            }
            Some(Box::new(ctx_dup(inner)))
        },
        None => None,
    };
    let tv: Option<TyVarContext> = match &c.tv_ctx {
        Some(t) => Some(TyVarContext { level: t.level, bounds: bounds_dup(&t.bounds) }),
        None => None,
    };
    let out = Context {
        name: c.name.clone(),
        kind: c.kind,
        vis: c.vis,
        level: c.level,
        params: params_dup(&c.params),
        bounds: bounds_dup(&c.bounds),
        consts: consts_dup(&c.consts),
        decls: decls_dup(&c.decls),
        methods_list: methods_dup(&c.methods_list),
        nominals: nominals_dup(&c.nominals),
        tv_ctx: tv,
        input: c.input.clone(),
        outer,
    };
    proof {
        assert(ctx_view(out) =~= ctx_view(*c));
    }
    out
}

// ---------------------------------------------------------------------
// Construction, growth and popping of scopes.
// ---------------------------------------------------------------------


/// All the table views of a freshly built scope are empty.
proof fn lemma_fresh_tables(c: Context)
    requires
        c.params@.len() == 0,
        c.bounds@.len() == 0,
        c.consts@.len() == 0,
        c.decls@.len() == 0,
        c.methods_list@.len() == 0,
        c.nominals@.len() == 0,
    ensures
        ctx_view(c).params =~= Seq::<Option<Seq<char>>>::empty(),
        ctx_view(c).bounds =~= Seq::<TyBoundV>::empty(),
        ctx_view(c).consts =~= Seq::<(Seq<char>, ValueV)>::empty(),
        ctx_view(c).decls =~= Seq::<(Seq<char>, TypeV)>::empty(),
        ctx_view(c).methods_list =~= Seq::<(ClassDefTypeV, ContextV)>::empty(),
        ctx_view(c).nominals =~= Seq::<NominalEntryV>::empty(),
{
    assert(c.params@ =~= Seq::<Option<String>>::empty());
    assert(c.bounds@ =~= Seq::<TyBound>::empty());
    assert(c.consts@ =~= Seq::<(String, Value)>::empty());
    assert(c.decls@ =~= Seq::<(String, Type)>::empty());
    assert(c.methods_list@ =~= Seq::<(ClassDefType, Context)>::empty());
    assert(c.nominals@ =~= Seq::<NominalEntry>::empty());
    lemma_methods_view(c.methods_list@);
    lemma_nominals_view(c.nominals@);
}

/// The view of a freshly built empty scope.
pub open spec fn fresh_ctx_v(
    name: Seq<char>,
    kind: ContextKind,
    vis: Visibility,
    level: nat,
    tv_ctx: Option<TyVarContextV>,
    input: Seq<char>,
    outer: Option<Box<ContextV>>,
) -> ContextV {
    ContextV {
        name,
        kind,
        vis,
        level,
        params: Seq::empty(),
        bounds: Seq::empty(),
        consts: Seq::empty(),
        decls: Seq::empty(),
        methods_list: Seq::empty(),
        nominals: Seq::empty(),
        tv_ctx,
        input,
        outer,
    }
}

impl Context {
    /// Builds an empty scope.
    pub fn new(name: &str, kind: ContextKind, vis: Visibility, level: usize, input: &str) -> (r:
        Context)
        ensures
            ctx_view(r) == fresh_ctx_v(name@, kind, vis, level as nat, None, input@, None),
    {
        let out = Context {
            name: name.to_owned(),
            kind,
            vis,
            level,
            params: Vec::new(),
            bounds: Vec::new(),
            consts: Vec::new(),
            decls: Vec::new(),
            methods_list: Vec::new(),
            nominals: Vec::new(),
            tv_ctx: None,
            input: input.to_owned(),
            outer: None,
        };
        proof {
            lemma_fresh_tables(out);
            assert(ctx_view(out) =~= fresh_ctx_v(name@, kind, vis, level as nat, None, input@, None));
        }
        out
    }

    /// Builds a module scope, as the host does for each module.
    pub fn builtin_module(name: &str, level: usize) -> (r: Context)
        ensures
            ctx_view(r) == fresh_ctx_v(
                name@,
                ContextKind::Module,
                Visibility::Private,
                level as nat,
                None,
                Seq::empty(),
                None,
            ),
    {
        let out = Context::new(name, ContextKind::Module, Visibility::Private, level, "");
        proof {
            reveal_strlit("");
            assert(""@ =~= Seq::<char>::empty());
        }
        out
    }

    /// Builds a transient scope over an owned copy of the enclosing
    /// scope, as record and lambda evaluation do.
    pub fn instant(name: String, input: String, level: usize, outer: Context) -> (r: Context)
        ensures
            ctx_view(r) == fresh_ctx_v(
                name@,
                ContextKind::Instant,
                Visibility::Private,
                level as nat,
                None,
                input@,
                Some(Box::new(ctx_view(outer))),
            ),
    {
        let out = Context {
            name,
            kind: ContextKind::Instant,
            vis: Visibility::Private,
            level,
            params: Vec::new(),
            bounds: Vec::new(),
            consts: Vec::new(),
            decls: Vec::new(),
            methods_list: Vec::new(),
            nominals: Vec::new(),
            tv_ctx: None,
            input,
            outer: Some(Box::new(outer)),
        };
        proof {
            lemma_fresh_tables(out);
            assert(ctx_view(out) =~= fresh_ctx_v(
                ctx_view(out).name,
                ContextKind::Instant,
                Visibility::Private,
                level as nat,
                None,
                ctx_view(out).input,
                ctx_view(out).outer,
            ));
        }
        out
    }

    /// Pushes a fresh scope: the current frame becomes the new frame's
    /// outer, keeping its level and input.
    pub fn grow(
        &mut self,
        name: &str,
        kind: ContextKind,
        vis: Visibility,
        tv_ctx: Option<TyVarContext>,
    )
        ensures
            ctx_view(*final(self)) == fresh_ctx_v(
                name@,
                kind,
                vis,
                ctx_view(*old(self)).level,
                match tv_ctx {
                    Some(t) => Some(tvctx_view(t)),
                    None => None,
                },
                ctx_view(*old(self)).input,
                Some(Box::new(ctx_view(*old(self)))),
            ),
    {
        let input2 = self.input.clone();
        let level2 = self.level;
        let mut child = Context {
            name: name.to_owned(),
            kind,
            vis,
            level: level2,
            params: Vec::new(),
            bounds: Vec::new(),
            consts: Vec::new(),
            decls: Vec::new(),
            methods_list: Vec::new(),
            nominals: Vec::new(),
            tv_ctx,
            input: input2,
            outer: None,
        };
        core::mem::swap(self, &mut child);
        self.outer = Some(Box::new(child));
        proof {
            lemma_fresh_tables(*self);
            assert(ctx_view(*self) =~= fresh_ctx_v(
                name@,
                kind,
                vis,
                ctx_view(*old(self)).level,
                ctx_view(*self).tv_ctx,
                ctx_view(*old(self)).input,
                Some(Box::new(ctx_view(*old(self)))),
            ));
        }
    }

    /// Pops the current frame, restoring its outer.
    pub fn pop(&mut self)
        requires
            ctx_view(*old(self)).outer is Some,
        ensures
            Some(Box::new(ctx_view(*final(self)))) == ctx_view(*old(self)).outer,
    {
        let mut tmp: Option<Box<Context>> = None;
        core::mem::swap(&mut self.outer, &mut tmp);
        match tmp {
            Some(b) => {
                *self = *b;
            },
            None => {
                proof {
                    assert(false);
                }
            },
        }
    }

    /// Whether every declared name of this frame is bound as a const.
    #[verifier::loop_isolation(false)]
    fn decls_all_bound(&self) -> (r: bool)
        ensures
            r == decls_ok(ctx_view(*self)),
    {
        proof {
            lemma_decls_view(self.decls@);
        }
        let n = self.decls.len();
        let mut i: usize = 0;
        while i < n
            invariant
                i <= n,
                n == self.decls@.len(),
                forall|j: int| 0 <= j < i ==> consts_get(
                    ctx_view(*self).consts,
                    ctx_view(*self).decls[j].0,
                ) is Some,
            decreases n - i,
        {
            match self.local_get_const(self.decls[i].0.as_str()) {
                Some(_) => {},
                None => {
                    proof {
                        assert(consts_get(
                            ctx_view(*self).consts,
                            ctx_view(*self).decls[i as int].0,
                        ) is None);
                    }
                    return false;
                },
            }
            i = i + 1;
        }
        true
    }

    /// Checks this frame's declarations, then pops it whatever the
    /// outcome; an unbound declaration surfaces as an error.
    pub fn check_decls_and_pop(&mut self) -> (r: EvalResult<()>)
        requires
            ctx_view(*old(self)).outer is Some,
        ensures
            Some(Box::new(ctx_view(*final(self)))) == ctx_view(*old(self)).outer,
            r is Ok <==> decls_ok(ctx_view(*old(self))),
            r matches Err(e) ==> e.kind == ErrorKind::NoVar,
    {
        let ok = self.decls_all_bound();
        let name = self.name.clone();
        self.pop();
        if ok {
            Ok(())
        } else {
            Err(EvalError::new(ErrorKind::NoVar, Location::Unknown, name))
        }
    }

    /// Registers a produced const into this scope; a name bound twice
    /// is refused and the scope is unchanged.
    pub fn register_gen_const(&mut self, ident: &Ident, obj: Value) -> (r: EvalResult<()>)
        ensures
            match r {
                Ok(()) => consts_get(ctx_view(*old(self)).consts, ident.name@) is None && ctx_view(
                    *final(self),
                ) == (ContextV {
                    consts: ctx_view(*old(self)).consts.push(
                        (ident.name@, value_view(obj)),
                    ),
                    ..ctx_view(*old(self))
                }),
                Err(e) => consts_get(ctx_view(*old(self)).consts, ident.name@) is Some && e.kind
                    == ErrorKind::Reassign && ctx_view(*final(self)) == ctx_view(*old(self)),
            },
    {
        match self.local_get_const(ident.name.as_str()) {
            Some(_) => Err(
                EvalError::new(ErrorKind::Reassign, ident.loc, self.name.clone()),
            ),
            None => {
                let ghost oldv = ctx_view(*self);
                let name = ident.name.clone();
                self.consts.push((name, obj));
                proof {
                    crate::value::lemma_kw_values_view(self.consts@);
                    crate::value::lemma_kw_values_view(self.consts@.drop_last());
                    assert(self.consts@.drop_last() =~= old(self).consts@);
                    assert(ctx_view(*self).consts =~= oldv.consts.push(
                        (ident.name@, value_view(obj)),
                    ));
                    assert(ctx_view(*self) =~= (ContextV {
                        consts: oldv.consts.push((ident.name@, value_view(obj))),
                        ..oldv
                    }));
                }
                Ok(())
            },
        }
    }

    /// The bounds on this scope's formal type parameters.
    pub fn type_params_bounds(&self) -> (r: Vec<TyBound>)
        ensures
            bounds_view(r@) == ctx_view(*self).bounds,
    {
        bounds_dup(&self.bounds)
    }
}

/// Every declared name of the frame is bound as a const.
pub open spec fn decls_ok(c: ContextV) -> bool {
    forall|j: int| 0 <= j < c.decls.len() ==> consts_get(c.consts, c.decls[j].0) is Some
}


// ---------------------------------------------------------------------
// The nominal hierarchy.
// ---------------------------------------------------------------------

/// The qualified name a nominal type resolves under: ground types by
/// their built-in names, named types by path and name. Structural
/// shapes have none.
pub open spec fn type_key(t: TypeV) -> Option<(Seq<char>, Seq<char>)> {
    match t {
        TypeV::Obj => Some((Seq::empty(), "Obj"@)),
        TypeV::Int => Some((Seq::empty(), "Int"@)),
        TypeV::Nat => Some((Seq::empty(), "Nat"@)),
        TypeV::Ratio => Some((Seq::empty(), "Ratio"@)),
        TypeV::Str => Some((Seq::empty(), "Str"@)),
        TypeV::Bool => Some((Seq::empty(), "Bool"@)),
        TypeV::NoneType => Some((Seq::empty(), "NoneType"@)),
        TypeV::NotImplemented => Some((Seq::empty(), "NotImplemented"@)),
        TypeV::Ellipsis => Some((Seq::empty(), "Ellipsis"@)),
        TypeV::Inf => Some((Seq::empty(), "Inf"@)),
        TypeV::Type => Some((Seq::empty(), "Type"@)),
        TypeV::BuiltinMono(n) => Some((Seq::empty(), n)),
        TypeV::Mono { path, name } => Some((path, name)),
        TypeV::BuiltinPoly { name, .. } => Some((Seq::empty(), name)),
        TypeV::Poly { path, name, .. } => Some((path, name)),
        _ => None,
    }
}

impl Type {
    /// Computes the qualified name this type resolves under.
    pub fn key(&self) -> (r: Option<(String, String)>)
        ensures
            match r {
                Some(k) => type_key(type_view(*self)) == Some((k.0@, k.1@)),
                None => type_key(type_view(*self)) is None,
            },
    {
        let empty = String::new();
        match self {
            Type::Obj => Some((empty, "Obj".to_owned())),
            Type::Int => Some((empty, "Int".to_owned())),
            Type::Nat => Some((empty, "Nat".to_owned())),
            Type::Ratio => Some((empty, "Ratio".to_owned())),
            Type::Str => Some((empty, "Str".to_owned())),
            Type::Bool => Some((empty, "Bool".to_owned())),
            Type::NoneType => Some((empty, "NoneType".to_owned())),
            Type::NotImplemented => Some((empty, "NotImplemented".to_owned())),
            Type::Ellipsis => Some((empty, "Ellipsis".to_owned())),
            Type::Inf => Some((empty, "Inf".to_owned())),
            Type::Type => Some((empty, "Type".to_owned())),
            Type::BuiltinMono(n) => Some((empty, n.clone())),
            Type::Mono { path, name } => Some((path.clone(), name.clone())),
            Type::BuiltinPoly { name, .. } => Some((empty, name.clone())),
            Type::Poly { path, name, .. } => Some((path.clone(), name.clone())),
            _ => None,
        }
    }
}

/// Whether two types resolve under the same qualified name.
pub open spec fn same_key(a: TypeV, b: TypeV) -> bool {
    type_key(a) is Some && type_key(a) == type_key(b)
}

/// Decides `same_key`.
pub fn key_eq(a: &Type, b: &Type) -> (r: bool)
    ensures
        r == same_key(type_view(*a), type_view(*b)),
{
    match (a.key(), b.key()) {
        (Some(ka), Some(kb)) => str_eq(ka.0.as_str(), kb.0.as_str()) && str_eq(
            ka.1.as_str(),
            kb.1.as_str(),
        ),
        _ => false,
    }
}

/// The first registry entry of this frame matching a key.
pub open spec fn nominals_find(s: Seq<NominalEntryV>, key: (Seq<char>, Seq<char>)) -> Option<
    NominalEntryV,
>
    decreases s.len(),
{
    if s.len() == 0 {
        None
    } else if type_key(s[0].typ) == Some(key) {
        Some(s[0])
    } else {
        nominals_find(s.drop_first(), key)
    }
}

/// The first registry entry for a key, searching this frame and then
/// the enclosing ones.
pub open spec fn ctx_find_nominal(c: ContextV, key: (Seq<char>, Seq<char>)) -> Option<
    NominalEntryV,
>
    decreases c,
{
    match nominals_find(c.nominals, key) {
        Some(e) => Some(e),
        None => match c.outer {
            Some(o) => ctx_find_nominal(*o, key),
            None => None,
        },
    }
}

impl Context {
    /// Finds the registry entry of this frame for a key, as a copy.
    #[verifier::loop_isolation(false)]
    fn local_find_nominal(&self, key: &(String, String)) -> (r: Option<NominalEntry>)
        ensures
            match r {
                Some(e) => nominals_find(ctx_view(*self).nominals, (key.0@, key.1@)) == Some(
                    nominal_view(e),
                ),
                None => nominals_find(ctx_view(*self).nominals, (key.0@, key.1@)) is None,
            },
    {
        proof {
            lemma_nominals_view(self.nominals@);
            assert(ctx_view(*self).nominals.subrange(0, self.nominals@.len() as int)
                =~= ctx_view(*self).nominals);
        }
        let n = self.nominals.len();
        let mut i: usize = 0;
        while i < n
            invariant
                i <= n,
                n == self.nominals@.len(),
                nominals_find(ctx_view(*self).nominals, (key.0@, key.1@)) == nominals_find(
                    ctx_view(*self).nominals.subrange(i as int, n as int),
                    (key.0@, key.1@),
                ),
            decreases n - i,
        {
            let ghost pre = ctx_view(*self).nominals.subrange(i as int, n as int);
            proof {
                assert(pre[0] == nominal_view(self.nominals@[i as int]));
                assert(pre.drop_first() =~= ctx_view(*self).nominals.subrange(
                    i as int + 1,
                    n as int,
                ));
            }
            let ek = self.nominals[i].typ.key();
            let hit = match &ek {
                Some(k) => str_eq(k.0.as_str(), key.0.as_str()) && str_eq(
                    k.1.as_str(),
                    key.1.as_str(),
                ),
                None => false,
            };
            if hit {
                return Some(nominal_dup(&self.nominals[i]));
            }
            i = i + 1;
        }
        None
    }

    /// Finds the registry entry for a key, searching outward; the entry
    /// comes back as a copy.
    pub fn find_nominal(&self, key: &(String, String)) -> (r: Option<NominalEntry>)
        ensures
            match r {
                Some(e) => ctx_find_nominal(ctx_view(*self), (key.0@, key.1@)) == Some(
                    nominal_view(e),
                ),
                None => ctx_find_nominal(ctx_view(*self), (key.0@, key.1@)) is None,
            },
        decreases *self,
    {
        match self.local_find_nominal(key) {
            Some(e) => Some(e),
            None => match &self.outer {
                Some(o) => {
                    let out: &Context = o;
                    proof {
                        assert(ctx_view(*self).outer == Some(Box::new(ctx_view(*out))));
                    }
                    out.find_nominal(key)
                },
                None => None,
            },
        }
    }
}

/// The nominal subtype judgement this environment decides: a type is a
/// super type of another when they are equal, when it is the top type,
/// when the other is the bottom type, or when it appears, by qualified
/// name, among the declared super types of the other's registry entry.
pub open spec fn supertype_of_v(c: ContextV, a: TypeV, b: TypeV) -> bool {
    ||| a == b
    ||| a is Obj
    ||| b is Never
    ||| (match type_key(b) {
        Some(kb) => match ctx_find_nominal(c, kb) {
            Some(e) => exists|j: int| 0 <= j < e.supers.len() && same_key(e.supers[j], a),
            None => false,
        },
        None => false,
    })
}

impl Context {
    /// Decides the nominal subtype judgement.
    #[verifier::loop_isolation(false)]
    pub fn supertype_of(&self, a: &Type, b: &Type) -> (r: bool)
        ensures
            r == supertype_of_v(ctx_view(*self), type_view(*a), type_view(*b)),
    {
        if crate::deep::type_eq(a, b) {
            return true;
        }
        if matches!(a, Type::Obj) {
            return true;
        }
        if matches!(b, Type::Never) {
            return true;
        }
        let kb = match b.key() {
            Some(k) => k,
            None => {
                return false;
            },
        };
        let entry = match self.find_nominal(&kb) {
            Some(e) => e,
            None => {
                return false;
            },
        };
        proof {
            crate::ty::lemma_types_view(entry.supers@);
        }
        let n = entry.supers.len();
        let mut i: usize = 0;
        while i < n
            invariant
                i <= n,
                n == entry.supers@.len(),
                forall|j: int| 0 <= j < i ==> !same_key(
                    nominal_view(entry).supers[j],
                    type_view(*a),
                ),
            decreases n - i,
        {
            if key_eq(&entry.supers[i], a) {
                proof {
                    assert(same_key(nominal_view(entry).supers[i as int], type_view(*a)));
                }
                return true;
            }
            i = i + 1;
        }
        false
    }
}

/// The chain of scopes consulted for a subject type: its own registry
/// entry first, then the entries of its declared super types that
/// resolve, in declaration order.
pub open spec fn resolve_supers(c: ContextV, sups: Seq<TypeV>) -> Seq<NominalEntryV>
    decreases sups.len(),
{
    if sups.len() == 0 {
        Seq::empty()
    } else {
        let rest = resolve_supers(c, sups.drop_first());
        match type_key(sups[0]) {
            Some(k) => match ctx_find_nominal(c, k) {
                Some(e) => seq![e] + rest,
                None => rest,
            },
            None => rest,
        }
    }
}

/// The super-type chain of a subject, if the subject is registered.
pub open spec fn super_chain(c: ContextV, t: TypeV) -> Option<Seq<NominalEntryV>> {
    match type_key(t) {
        Some(k) => match ctx_find_nominal(c, k) {
            Some(e) => Some(seq![e] + resolve_supers(c, e.supers)),
            None => None,
        },
        None => None,
    }
}

impl Context {
    /// The nominal super-type scopes of a subject, in stable
    /// declaration order, as copies; nothing if the subject is not a
    /// registered nominal type.
    #[verifier::loop_isolation(false)]
    pub fn get_nominal_super_type_ctxs(&self, t: &Type) -> (r: Option<Vec<NominalEntry>>)
        ensures
            match r {
                Some(es) => super_chain(ctx_view(*self), type_view(*t)) == Some(
                    nominals_view(es@),
                ),
                None => super_chain(ctx_view(*self), type_view(*t)) is None,
            },
    {
        let k = match t.key() {
            Some(k) => k,
            None => {
                return None;
            },
        };
        let entry = match self.find_nominal(&k) {
            Some(e) => e,
            None => {
                return None;
            },
        };
        let mut out: Vec<NominalEntry> = Vec::new();
        proof {
            crate::ty::lemma_types_view(entry.supers@);
        }
        let n = entry.supers.len();
        let mut i: usize = 0;
        let ghost supsv = nominal_view(entry).supers;
        let mut rest: Vec<NominalEntry> = Vec::new();
        proof {
            lemma_nominals_view(rest@);
            assert(nominals_view(rest@) =~= Seq::<NominalEntryV>::empty());
            assert(supsv.subrange(0, n as int) =~= supsv);
            assert(nominals_view(rest@) + resolve_supers(ctx_view(*self), supsv) =~= resolve_supers(
                ctx_view(*self),
                supsv,
            ));
        }
        while i < n
            invariant
                i <= n,
                n == entry.supers@.len(),
                supsv == nominal_view(entry).supers,
                supsv.len() == n,
                resolve_supers(ctx_view(*self), supsv) == nominals_view(rest@) + resolve_supers(
                    ctx_view(*self),
                    supsv.subrange(i as int, n as int),
                ),
            decreases n - i,
        {
            let ghost tailv = supsv.subrange(i as int, n as int);
            proof {
                assert(tailv[0] == type_view(entry.supers@[i as int]));
                assert(tailv.drop_first() =~= supsv.subrange(i as int + 1, n as int));
            }
            let sk = entry.supers[i].key();
            match sk {
                Some(k2) => match self.find_nominal(&k2) {
                    Some(e2) => {
                        proof {
                            lemma_nominals_view(rest@);
                        }
                        rest.push(e2);
                        proof {
                            lemma_nominals_view(rest@);
                            assert(nominals_view(rest@) =~= nominals_view(rest@.drop_last()).push(
                                nominal_view(rest@.last()),
                            ));
                            assert(nominals_view(rest@) + resolve_supers(
                                ctx_view(*self),
                                supsv.subrange(i as int + 1, n as int),
                            ) =~= nominals_view(rest@.drop_last()) + (seq![
                                nominal_view(rest@.last()),
                            ] + resolve_supers(
                                ctx_view(*self),
                                supsv.subrange(i as int + 1, n as int),
                            )));
                        }
                    },
                    None => {},
                },
                None => {},
            }
            i = i + 1;
        }
        proof {
            assert(supsv.subrange(i as int, n as int).len() == 0);
            assert(resolve_supers(ctx_view(*self), supsv.subrange(i as int, n as int))
                =~= Seq::<NominalEntryV>::empty());
            assert(resolve_supers(ctx_view(*self), supsv) =~= nominals_view(rest@));
        }
        out.push(entry);
        proof {
            lemma_nominals_view(out@);
            lemma_nominals_view(rest@);
        }
        let mut rest2 = rest;
        let ghost outv0 = nominals_view(out@);
        let ghost restv = nominals_view(rest2@);
        out.append(&mut rest2);
        proof {
            lemma_nominals_view(out@);
            assert forall|j: int| 0 <= j < out@.len() implies nominals_view(out@)[j] == (outv0
                + restv)[j] by {
                if j == 0 {
                } else {
                    lemma_nominals_view(rest2@);
                }
            }
            assert(nominals_view(out@) =~= outv0 + restv);
            assert(super_chain(ctx_view(*self), type_view(*t)) == Some(nominals_view(out@)));
        }
        Some(out)
    }
}

/// Whether a binding can be written again.
#[derive(Clone, Copy, Debug, PartialEq, Eq, Structural)]
pub enum Mutability {
    Immutable,
    Mutable,
}

impl Context {
    /// Registers a host-provided binding and its type into this scope's
    /// declarations, as module initialization does.
    pub fn register_builtin_impl(
        &mut self,
        name: &str,
        t: Type,
        _muta: Mutability,
        _vis: Visibility,
    )
        ensures
            ctx_view(*final(self)) == (ContextV {
                decls: ctx_view(*old(self)).decls.push((name@, type_view(t))),
                ..ctx_view(*old(self))
            }),
    {
        let ghost oldv = ctx_view(*self);
        let owned = name.to_owned();
        self.decls.push((owned, t));
        proof {
            lemma_decls_view(self.decls@);
            lemma_decls_view(self.decls@.drop_last());
            assert(self.decls@.drop_last() =~= old(self).decls@);
            assert(decls_view(self.decls@.drop_last()) =~= oldv.decls);
            assert(ctx_view(*self).decls =~= oldv.decls.push((name@, type_view(t))));
            assert(ctx_view(*self) =~= (ContextV {
                decls: oldv.decls.push((name@, type_view(t))),
                ..oldv
            }));
        }
    }

    /// Registers a nominal type and its scope into this frame's
    /// registry.
    pub fn register_nominal(&mut self, entry: NominalEntry)
        ensures
            ctx_view(*final(self)) == (ContextV {
                nominals: ctx_view(*old(self)).nominals.push(nominal_view(entry)),
                ..ctx_view(*old(self))
            }),
    {
        let ghost oldv = ctx_view(*self);
        let ghost ev = nominal_view(entry);
        self.nominals.push(entry);
        proof {
            lemma_nominals_view(self.nominals@);
            lemma_nominals_view(self.nominals@.drop_last());
            assert(self.nominals@.drop_last() =~= old(self).nominals@);
            assert(nominals_view(self.nominals@.drop_last()) =~= oldv.nominals);
            assert(ctx_view(*self).nominals =~= oldv.nominals.push(ev));
            assert(ctx_view(*self) =~= (ContextV { nominals: oldv.nominals.push(ev), ..oldv }));
        }
    }
}

} // verus!
