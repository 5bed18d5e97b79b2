//! The substitution engine.
//!
//! A substitution context binds the formal type-parameter names of a
//! generic scope, in order, to the actual type parameters of a concrete
//! polymorphic type. Substituting a quantified term instantiates it
//! under the generic bounds and then walks its type parameters,
//! replacing each free variable whose name matches a formal by the
//! bound actual. The arities must match; that is the caller's burden.

use vstd::prelude::*;
use crate::error::{ErrorKind, EvalError, EvalResult, Location};
use crate::context::{Context, ContextV, TyVarContext, ctx_view};
use crate::inst::{inst_t, inst_tps, lemma_inst_tps};
use crate::ty::{
    FreeTyParam, FreeTyVar, ParamTy, SubrType, SubrTypeV, RefinementType, TyBound, TyBoundV,
    TyParam, TyParamV, Type, TypeV, bounds_view, lemma_paramtys_view, lemma_preds_view,
    lemma_record_t_view, lemma_typarams_view, opt_str_view, paramty_view, paramtys_view,
    pred_view, preds_view, record_t_view, typaram_view, typarams_view, type_view,
};
use crate::value::{Field, FieldV, field_view};
use crate::deep::{bounds_dup, field_dup, opt_str_dup, type_dup, typaram_dup};
use crate::classify::typarams_v;

verus! {

/// Binds formal type-parameter names to actual type parameters.
#[derive(Debug)]
pub struct SubstContext {
    pub bounds: Vec<TyBound>,
    pub params: Vec<(String, TyParam)>,
}

#[verifier::ext_equal]
pub ghost struct SubstContextV {
    pub bounds: Seq<TyBoundV>,
    pub params: Seq<(Seq<char>, TyParamV)>,
}

pub open spec fn subst_params_view(s: Seq<(String, TyParam)>) -> Seq<(Seq<char>, TyParamV)>
    decreases s,
{
    if s.len() == 0 {
        Seq::empty()
    } else {
        subst_params_view(s.drop_last()).push((s.last().0@, typaram_view(s.last().1)))
    }
}

pub proof fn lemma_subst_params_view(s: Seq<(String, TyParam)>)
    ensures
        subst_params_view(s).len() == s.len(),
        forall|i: int| 0 <= i < s.len() ==> subst_params_view(s)[i] == (
        s[i].0@,
        typaram_view(s[i].1),
        ),
    decreases s,
{
    if s.len() > 0 {
        lemma_subst_params_view(s.drop_last());
    }
}

pub open spec fn subst_view(s: SubstContext) -> SubstContextV {
    SubstContextV { bounds: bounds_view(s.bounds@), params: subst_params_view(s.params@) }
}

/// The formal names of a generic scope, anonymous ones written `_`,
/// zipped with the actuals.
pub open spec fn zip_params(names: Seq<Option<Seq<char>>>, tps: Seq<TyParamV>) -> Seq<
    (Seq<char>, TyParamV),
>
    decreases names,
{
    if names.len() == 0 || tps.len() == 0 {
        Seq::empty()
    } else {
        zip_params(names.drop_last(), tps.drop_last()).push(
            (
                match names.last() {
                    Some(n) => n,
                    None => "_"@,
                },
                tps.last(),
            ),
        )
    }
}

/// The actual bound to a formal name, if any.
pub open spec fn params_get(s: Seq<(Seq<char>, TyParamV)>, n: Seq<char>) -> Option<TyParamV>
    decreases s.len(),
{
    if s.len() == 0 {
        None
    } else if s[0].0 == n {
        Some(s[0].1)
    } else {
        params_get(s.drop_first(), n)
    }
}

// ---------------------------------------------------------------------
// The model of the walk.
// ---------------------------------------------------------------------

pub open spec fn subst_tp(ps: Seq<(Seq<char>, TyParamV)>, p: TyParamV) -> Result<
    TyParamV,
    ErrorKind,
>
    decreases p,
{
    match p {
        TyParamV::FreeVar(f) => match *f {
            crate::ty::FreeTyParamV::Unbound { name, .. } => match name {
                Some(n) => match params_get(ps, n) {
                    Some(actual) => Ok(actual),
                    None => Ok(p),
                },
                None => Err(ErrorKind::Unreachable),
            },
            crate::ty::FreeTyParamV::Linked(_) => Ok(p),
        },
        TyParamV::BinOp { op, lhs, rhs } => match (subst_tp(ps, *lhs), subst_tp(ps, *rhs)) {
            (Ok(l), Ok(r)) => Ok(TyParamV::BinOp { op, lhs: Box::new(l), rhs: Box::new(r) }),
            (Err(e), _) => Err(e),
            (_, Err(e)) => Err(e),
        },
        TyParamV::UnaryOp { op, val } => match subst_tp(ps, *val) {
            Ok(v) => Ok(TyParamV::UnaryOp { op, val: Box::new(v) }),
            Err(e) => Err(e),
        },
        TyParamV::Array(args) => match subst_tps(ps, args) {
            Ok(a) => Ok(TyParamV::Array(a)),
            Err(e) => Err(e),
        },
        TyParamV::Tuple(args) => match subst_tps(ps, args) {
            Ok(a) => Ok(TyParamV::Tuple(a)),
            Err(e) => Err(e),
        },
        TyParamV::App { name, args } => match subst_tps(ps, args) {
            Ok(a) => Ok(TyParamV::App { name, args: a }),
            Err(e) => Err(e),
        },
        TyParamV::PolyQVar { name, args } => match subst_tps(ps, args) {
            Ok(a) => Ok(TyParamV::PolyQVar { name, args: a }),
            Err(e) => Err(e),
        },
        TyParamV::Type(t) => match subst_t(ps, *t) {
            Ok(t2) => Ok(TyParamV::Type(Box::new(t2))),
            Err(e) => Err(e),
        },
        TyParamV::MonoProj { obj, attr } => match subst_tp(ps, *obj) {
            Ok(o) => Ok(TyParamV::MonoProj { obj: Box::new(o), attr }),
            Err(e) => Err(e),
        },
        other => Ok(other),
    }
}

pub open spec fn subst_tps(ps: Seq<(Seq<char>, TyParamV)>, s: Seq<TyParamV>) -> Result<
    Seq<TyParamV>,
    ErrorKind,
>
    decreases s,
{
    if s.len() == 0 {
        Ok(Seq::empty())
    } else {
        match (subst_tps(ps, s.drop_last()), subst_tp(ps, s.last())) {
            (Ok(rest), Ok(last)) => Ok(rest.push(last)),
            (Err(e), _) => Err(e),
            (_, Err(e)) => Err(e),
        }
    }
}

pub open spec fn subst_t(ps: Seq<(Seq<char>, TyParamV)>, t: TypeV) -> Result<TypeV, ErrorKind>
    decreases t,
{
    match t {
        TypeV::FreeVar(f) => match *f {
            crate::ty::FreeTyVarV::Unbound { name, .. } => match name {
                Some(n) => match params_get(ps, n) {
                    Some(TyParamV::Type(t2)) => Ok(*t2),
                    Some(_) => Err(ErrorKind::Unreachable),
                    None => Ok(t),
                },
                None => Ok(t),
            },
            crate::ty::FreeTyVarV::Linked(_) => Ok(t),
        },
        TypeV::Subr(s) => {
            let nd = subst_pts(ps, s.non_default_params);
            let vpr: Result<Option<Box<crate::ty::ParamTyV>>, ErrorKind> = match s.var_params {
                Some(p) => match subst_pt(ps, *p) {
                    Ok(q) => Ok(Some(Box::new(q))),
                    Err(e) => Err(e),
                },
                None => Ok(None),
            };
            let dp = subst_pts(ps, s.default_params);
            let rt = subst_t(ps, *s.return_t);
            match (nd, vpr, dp, rt) {
                (Ok(nd2), Ok(vp2), Ok(dp2), Ok(rt2)) => Ok(
                    TypeV::Subr(
                        SubrTypeV {
                            kind: s.kind,
                            non_default_params: nd2,
                            var_params: vp2,
                            default_params: dp2,
                            return_t: Box::new(rt2),
                        },
                    ),
                ),
                (Err(e), _, _, _) => Err(e),
                (_, Err(e), _, _) => Err(e),
                (_, _, Err(e), _) => Err(e),
                (_, _, _, Err(e)) => Err(e),
            }
        },
        TypeV::And(a, b) => match (subst_t(ps, *a), subst_t(ps, *b)) {
            (Ok(x), Ok(y)) => Ok(TypeV::And(Box::new(x), Box::new(y))),
            (Err(e), _) => Err(e),
            (_, Err(e)) => Err(e),
        },
        TypeV::Or(a, b) => match (subst_t(ps, *a), subst_t(ps, *b)) {
            (Ok(x), Ok(y)) => Ok(TypeV::Or(Box::new(x), Box::new(y))),
            (Err(e), _) => Err(e),
            (_, Err(e)) => Err(e),
        },
        TypeV::Not(a, b) => match (subst_t(ps, *a), subst_t(ps, *b)) {
            (Ok(x), Ok(y)) => Ok(TypeV::Not(Box::new(x), Box::new(y))),
            (Err(e), _) => Err(e),
            (_, Err(e)) => Err(e),
        },
        TypeV::MonoProj { lhs, rhs } => match subst_t(ps, *lhs) {
            Ok(l) => Ok(TypeV::MonoProj { lhs: Box::new(l), rhs }),
            Err(e) => Err(e),
        },
        TypeV::Record(fields) => match subst_rec(ps, fields) {
            Ok(fs) => Ok(TypeV::Record(fs)),
            Err(e) => Err(e),
        },
        TypeV::Ref(u) => match subst_t(ps, *u) {
            Ok(x) => Ok(TypeV::Ref(Box::new(x))),
            Err(e) => Err(e),
        },
        TypeV::RefMut { before, after } => {
            let ar: Result<Option<Box<TypeV>>, ErrorKind> = match after {
                Some(a) => match subst_t(ps, *a) {
                    Ok(x) => Ok(Some(Box::new(x))),
                    Err(e) => Err(e),
                },
                None => Ok(None),
            };
            match (subst_t(ps, *before), ar) {
                (Ok(b2), Ok(a2)) => Ok(TypeV::RefMut { before: Box::new(b2), after: a2 }),
                (Err(e), _) => Err(e),
                (_, Err(e)) => Err(e),
            }
        },
        TypeV::Refinement(rf) => match subst_t(ps, *rf.t) {
            Ok(t2) => Ok(
                TypeV::Refinement(
                    crate::ty::RefinementV { var: rf.var, t: Box::new(t2), preds: rf.preds },
                ),
            ),
            Err(e) => Err(e),
        },
        TypeV::BuiltinPoly { name, params } => match subst_tps(ps, params) {
            Ok(a) => Ok(TypeV::BuiltinPoly { name, params: a }),
            Err(e) => Err(e),
        },
        TypeV::Poly { path, name, params } => match subst_tps(ps, params) {
            Ok(a) => Ok(TypeV::Poly { path, name, params: a }),
            Err(e) => Err(e),
        },
        TypeV::PolyQVar { name, params } => match subst_tps(ps, params) {
            Ok(a) => Ok(TypeV::PolyQVar { name, params: a }),
            Err(e) => Err(e),
        },
        _ => Err(ErrorKind::Feature),
    }
}

pub open spec fn subst_pt(ps: Seq<(Seq<char>, TyParamV)>, p: crate::ty::ParamTyV) -> Result<
    crate::ty::ParamTyV,
    ErrorKind,
>
    decreases p,
{
    match subst_t(ps, p.t) {
        Ok(t2) => Ok(crate::ty::ParamTyV { name: p.name, t: t2 }),
        Err(e) => Err(e),
    }
}

pub open spec fn subst_pts(ps: Seq<(Seq<char>, TyParamV)>, s: Seq<crate::ty::ParamTyV>) -> Result<
    Seq<crate::ty::ParamTyV>,
    ErrorKind,
>
    decreases s,
{
    if s.len() == 0 {
        Ok(Seq::empty())
    } else {
        match (subst_pts(ps, s.drop_last()), subst_pt(ps, s.last())) {
            (Ok(rest), Ok(last)) => Ok(rest.push(last)),
            (Err(e), _) => Err(e),
            (_, Err(e)) => Err(e),
        }
    }
}

pub open spec fn subst_rec(ps: Seq<(Seq<char>, TyParamV)>, s: Seq<(FieldV, TypeV)>) -> Result<
    Seq<(FieldV, TypeV)>,
    ErrorKind,
>
    decreases s,
{
    if s.len() == 0 {
        Ok(Seq::empty())
    } else {
        match (subst_rec(ps, s.drop_last()), subst_t(ps, s.last().1)) {
            (Ok(rest), Ok(last)) => Ok(rest.push((s.last().0, last))),
            (Err(e), _) => Err(e),
            (_, Err(e)) => Err(e),
        }
    }
}

/// What substitution makes of an instantiated term: a polymorphic
/// application has its parameters walked; anything else passes through.
pub open spec fn subst_apply(sc: SubstContextV, lv: nat, quant: TypeV) -> Result<
    TypeV,
    ErrorKind,
> {
    let inst = inst_t(quant, lv, sc.bounds);
    match inst {
        TypeV::BuiltinPoly { name, params } => match subst_tps(sc.params, params) {
            Ok(a) => Ok(TypeV::BuiltinPoly { name, params: a }),
            Err(e) => Err(e),
        },
        TypeV::Poly { path, name, params } => match subst_tps(sc.params, params) {
            Ok(a) => Ok(TypeV::Poly { path, name, params: a }),
            Err(e) => Err(e),
        },
        TypeV::PolyQVar { name, params } => match subst_tps(sc.params, params) {
            Ok(a) => Ok(TypeV::PolyQVar { name, params: a }),
            Err(e) => Err(e),
        },
        other => Ok(other),
    }
}


// ---------------------------------------------------------------------
// Error-propagation lemmas for the sequence walks.
// ---------------------------------------------------------------------

pub proof fn lemma_subst_tps_err(
    ps: Seq<(Seq<char>, TyParamV)>,
    s: Seq<TyParamV>,
    i: int,
    k: int,
    e: ErrorKind,
)
    requires
        0 <= i < k <= s.len(),
        subst_tps(ps, s.subrange(0, i)) is Ok,
        subst_tp(ps, s[i]) == Err::<TyParamV, ErrorKind>(e),
    ensures
        subst_tps(ps, s.subrange(0, k)) == Err::<Seq<TyParamV>, ErrorKind>(e),
    decreases k,
{
    if k == i + 1 {
        assert(s.subrange(0, k).drop_last() =~= s.subrange(0, i));
        assert(s.subrange(0, k).last() == s[i]);
    } else {
        lemma_subst_tps_err(ps, s, i, k - 1, e);
        assert(s.subrange(0, k).drop_last() =~= s.subrange(0, k - 1));
    }
}

// ---------------------------------------------------------------------
// Executable walks.
// ---------------------------------------------------------------------

/// Finds the actual bound to a formal name.
#[verifier::loop_isolation(false)]
fn params_get_x(params: &Vec<(String, TyParam)>, n: &str) -> (r: Option<TyParam>)
    ensures
        match r {
            Some(p) => params_get(subst_params_view(params@), n@) == Some(typaram_view(p)),
            None => params_get(subst_params_view(params@), n@) is None,
        },
{
    proof {
        lemma_subst_params_view(params@);
        assert(subst_params_view(params@).subrange(0, params@.len() as int) =~= subst_params_view(
            params@,
        ));
    }
    let m = params.len();
    let mut i: usize = 0;
    while i < m
        invariant
            i <= m,
            m == params@.len(),
            params_get(subst_params_view(params@), n@) == params_get(
                subst_params_view(params@).subrange(i as int, m as int),
                n@,
            ),
        decreases m - i,
    {
        let ghost pre = subst_params_view(params@).subrange(i as int, m as int);
        proof {
            assert(pre[0] == (params@[i as int].0@, typaram_view(params@[i as int].1)));
            assert(pre.drop_first() =~= subst_params_view(params@).subrange(
                i as int + 1,
                m as int,
            ));
        }
        if crate::deep::str_eq(params[i].0.as_str(), n) {
            return Some(typaram_dup(&params[i].1));
        }
        i = i + 1;
    }
    None
}

impl SubstContext {
    /// Binds the formal names of a generic scope to the actuals of a
    /// concrete polymorphic type; the arities must agree.
    #[verifier::loop_isolation(false)]
    pub fn new(substituted: &Type, ty_ctx: &Context) -> (r: SubstContext)
        requires
            ctx_view(*ty_ctx).params.len() == typarams_v(type_view(*substituted)).len(),
        ensures
            subst_view(r) == (SubstContextV {
                bounds: ctx_view(*ty_ctx).bounds,
                params: zip_params(
                    ctx_view(*ty_ctx).params,
                    typarams_v(type_view(*substituted)),
                ),
            }),
    {
        let bounds = ty_ctx.type_params_bounds();
        let tps = substituted.typarams();
        proof {
            lemma_typarams_view(tps@);
        }
        let n = ty_ctx.params.len();
        let mut params: Vec<(String, TyParam)> = Vec::new();
        let mut i: usize = 0;
        let ghost namesv = ctx_view(*ty_ctx).params;
        let ghost tpsv = typarams_v(type_view(*substituted));
        proof {
            assert(namesv.len() == n);
            assert(namesv.subrange(0, 0int) =~= Seq::<Option<Seq<char>>>::empty());
            assert(tpsv.subrange(0, 0int) =~= Seq::<TyParamV>::empty());
        }
        while i < n
            invariant
                i <= n,
                n == ty_ctx.params@.len(),
                tps@.len() == n,
                namesv == ctx_view(*ty_ctx).params,
                tpsv == typarams_v(type_view(*substituted)),
                namesv.len() == n && tpsv.len() == n,
                typarams_view(tps@) == tpsv,
                subst_params_view(params@) == zip_params(
                    namesv.subrange(0, i as int),
                    tpsv.subrange(0, i as int),
                ),
            decreases n - i,
        {
            let name: String = match &ty_ctx.params[i] {
                Some(nm) => nm.clone(),
                None => "_".to_owned(),
            };
            proof {
                assert(namesv[i as int] == opt_str_view(ty_ctx.params@[i as int]));
            }
            let actual = typaram_dup(&tps[i]);
            let ghost prevseq = params@;
            params.push((name, actual));
            proof {
                assert(params@.drop_last() =~= prevseq);
                assert(namesv.subrange(0, i as int + 1).drop_last() =~= namesv.subrange(
                    0,
                    i as int,
                ));
                assert(tpsv.subrange(0, i as int + 1).drop_last() =~= tpsv.subrange(0, i as int));
                assert(subst_params_view(params@) == subst_params_view(prevseq).push(
                    (params@.last().0@, typaram_view(params@.last().1)),
                ));
                assert(subst_params_view(params@) =~= zip_params(
                    namesv.subrange(0, i as int + 1),
                    tpsv.subrange(0, i as int + 1),
                ));
            }
            i = i + 1;
        }
        proof {
            assert(namesv.subrange(0, n as int) =~= namesv);
            assert(tpsv.subrange(0, n as int) =~= tpsv);
        }
        let out = SubstContext { bounds, params };
        proof {
            assert(subst_view(out) =~= (SubstContextV {
                bounds: ctx_view(*ty_ctx).bounds,
                params: zip_params(namesv, tpsv),
            }));
        }
        out
    }

    /// Walks one type parameter, replacing matched variables by their
    /// actuals. An anonymous unbound variable is a compiler invariant
    /// violation.
    pub fn substitute_tp(&self, param: &TyParam, ctx: &Context) -> (r: EvalResult<TyParam>)
        ensures
            match r {
                Ok(q) => subst_tp(subst_view(*self).params, typaram_view(*param)) == Ok::<
                    _,
                    ErrorKind,
                >(typaram_view(q)),
                Err(e) => subst_tp(subst_view(*self).params, typaram_view(*param)) == Err::<
                    TyParamV,
                    _,
                >(e.kind),
            },
        decreases *param,
    {
        match param {
            TyParam::FreeVar(f) => {
                let fv: &FreeTyParam = f;
                proof {
                    assert(typaram_view(*param) == TyParamV::FreeVar(
                        Box::new(crate::ty::fvtp_view(*fv)),
                    ));
                }
                match fv {
                    FreeTyParam::Unbound { name, .. } => {
                        proof {
                            assert(crate::ty::fvtp_view(*fv)->Unbound_name == opt_str_view(*name));
                        }
                        match name {
                            Some(n) => match params_get_x(&self.params, n.as_str()) {
                                Some(actual) => Ok(actual),
                                None => Ok(typaram_dup(param)),
                            },
                            None => Err(
                                EvalError::new(
                                    ErrorKind::Unreachable,
                                    Location::Unknown,
                                    ctx.name.clone(),
                                ),
                            ),
                        }
                    },
                    FreeTyParam::Linked(_) => Ok(typaram_dup(param)),
                }
            },
            TyParam::BinOp { op, lhs, rhs } => {
                let l = self.substitute_tp(lhs, ctx)?;
                let r2 = self.substitute_tp(rhs, ctx)?;
                Ok(TyParam::BinOp { op: *op, lhs: Box::new(l), rhs: Box::new(r2) })
            },
            TyParam::UnaryOp { op, val } => {
                let v = self.substitute_tp(val, ctx)?;
                Ok(TyParam::UnaryOp { op: *op, val: Box::new(v) })
            },
            TyParam::Array(args) => {
                let a = self.subst_tps_x(args, ctx)?;
                Ok(TyParam::Array(a))
            },
            TyParam::Tuple(args) => {
                let a = self.subst_tps_x(args, ctx)?;
                Ok(TyParam::Tuple(a))
            },
            TyParam::App { name, args } => {
                let a = self.subst_tps_x(args, ctx)?;
                Ok(TyParam::App { name: name.clone(), args: a })
            },
            TyParam::PolyQVar { name, args } => {
                let a = self.subst_tps_x(args, ctx)?;
                Ok(TyParam::PolyQVar { name: name.clone(), args: a })
            },
            TyParam::Type(t) => {
                let t2 = self.substitute_t(t, ctx)?;
                Ok(TyParam::Type(Box::new(t2)))
            },
            TyParam::MonoProj { obj, attr } => {
                let o = self.substitute_tp(obj, ctx)?;
                Ok(TyParam::MonoProj { obj: Box::new(o), attr: attr.clone() })
            },
            other => Ok(typaram_dup(other)),
        }
    }

    /// Walks a parameter list.
    #[verifier::loop_isolation(false)]
    fn subst_tps_x(&self, args: &Vec<TyParam>, ctx: &Context) -> (r: EvalResult<Vec<TyParam>>)
        ensures
            match r {
                Ok(a) => subst_tps(subst_view(*self).params, typarams_view(args@)) == Ok::<
                    _,
                    ErrorKind,
                >(typarams_view(a@)),
                Err(e) => subst_tps(subst_view(*self).params, typarams_view(args@)) == Err::<
                    Seq<TyParamV>,
                    _,
                >(e.kind),
            },
        decreases args@,
    {
        proof {
            lemma_typarams_view(args@);
        }
        let ghost ps = subst_view(*self).params;
        let ghost sv = typarams_view(args@);
        let n = args.len();
        let mut out: Vec<TyParam> = Vec::new();
        let mut i: usize = 0;
        proof {
            assert(sv.subrange(0, 0int) =~= Seq::<TyParamV>::empty());
        }
        while i < n
            invariant
                i <= n,
                n == args@.len(),
                sv == typarams_view(args@) && sv.len() == n,
                ps == subst_view(*self).params,
                subst_tps(ps, sv.subrange(0, i as int)) == Ok::<_, ErrorKind>(
                    typarams_view(out@),
                ),
            decreases n - i,
        {
            proof {
                assert(decreases_to!(args@ => args@[i as int]));
            }
            match self.substitute_tp(&args[i], ctx) {
                Ok(q) => {
                    let ghost prevseq = out@;
                    out.push(q);
                    proof {
                        assert(out@.drop_last() =~= prevseq);
                        assert(typarams_view(out@) == typarams_view(prevseq).push(
                            typaram_view(out@.last()),
                        ));
                        assert(sv.subrange(0, i as int + 1).drop_last() =~= sv.subrange(
                            0,
                            i as int,
                        ));
                        assert(sv.subrange(0, i as int + 1).last() == sv[i as int]);
                    }
                },
                Err(e) => {
                    proof {
                        lemma_subst_tps_err(ps, sv, i as int, n as int, e.kind);
                        assert(sv.subrange(0, n as int) =~= sv);
                    }
                    return Err(e);
                },
            }
            i = i + 1;
        }
        proof {
            assert(sv.subrange(0, n as int) =~= sv);
        }
        Ok(out)
    }
}


pub proof fn lemma_subst_pts_err(
    ps: Seq<(Seq<char>, TyParamV)>,
    s: Seq<crate::ty::ParamTyV>,
    i: int,
    k: int,
    e: ErrorKind,
)
    requires
        0 <= i < k <= s.len(),
        subst_pts(ps, s.subrange(0, i)) is Ok,
        subst_pt(ps, s[i]) == Err::<crate::ty::ParamTyV, ErrorKind>(e),
    ensures
        subst_pts(ps, s.subrange(0, k)) == Err::<Seq<crate::ty::ParamTyV>, ErrorKind>(e),
    decreases k,
{
    if k == i + 1 {
        assert(s.subrange(0, k).drop_last() =~= s.subrange(0, i));
        assert(s.subrange(0, k).last() == s[i]);
    } else {
        lemma_subst_pts_err(ps, s, i, k - 1, e);
        assert(s.subrange(0, k).drop_last() =~= s.subrange(0, k - 1));
    }
}

pub proof fn lemma_subst_rec_err(
    ps: Seq<(Seq<char>, TyParamV)>,
    s: Seq<(FieldV, TypeV)>,
    i: int,
    k: int,
    e: ErrorKind,
)
    requires
        0 <= i < k <= s.len(),
        subst_rec(ps, s.subrange(0, i)) is Ok,
        subst_t(ps, s[i].1) == Err::<TypeV, ErrorKind>(e),
    ensures
        subst_rec(ps, s.subrange(0, k)) == Err::<Seq<(FieldV, TypeV)>, ErrorKind>(e),
    decreases k,
{
    if k == i + 1 {
        assert(s.subrange(0, k).drop_last() =~= s.subrange(0, i));
        assert(s.subrange(0, k).last() == s[i]);
    } else {
        lemma_subst_rec_err(ps, s, i, k - 1, e);
        assert(s.subrange(0, k).drop_last() =~= s.subrange(0, k - 1));
    }
}

impl SubstContext {
    /// Walks a type, replacing matched variables by the types their
    /// actuals carry; an actual that is not a type where a type is
    /// needed is a compiler invariant violation, and shapes outside the
    /// walk are not yet supported.
    pub fn substitute_t(&self, param_t: &Type, ctx: &Context) -> (r: EvalResult<Type>)
        ensures
            match r {
                Ok(t) => subst_t(subst_view(*self).params, type_view(*param_t)) == Ok::<
                    _,
                    ErrorKind,
                >(type_view(t)),
                Err(e) => subst_t(subst_view(*self).params, type_view(*param_t)) == Err::<
                    TypeV,
                    _,
                >(e.kind),
            },
        decreases *param_t,
    {
        match param_t {
            Type::FreeVar(f) => {
                let fv: &FreeTyVar = f;
                proof {
                    assert(type_view(*param_t) == TypeV::FreeVar(
                        Box::new(crate::ty::fvt_view(*fv)),
                    ));
                }
                match fv {
                    FreeTyVar::Unbound { name, .. } => {
                        proof {
                            assert(crate::ty::fvt_view(*fv)->Unbound_name == opt_str_view(*name));
                        }
                        match name {
                            Some(n) => match params_get_x(&self.params, n.as_str()) {
                                Some(actual) => match actual {
                                    TyParam::Type(t2) => Ok(*t2),
                                    _ => Err(
                                        EvalError::new(
                                            ErrorKind::Unreachable,
                                            Location::Unknown,
                                            ctx.name.clone(),
                                        ),
                                    ),
                                },
                                None => Ok(type_dup(param_t)),
                            },
                            None => Ok(type_dup(param_t)),
                        }
                    },
                    FreeTyVar::Linked(_) => Ok(type_dup(param_t)),
                }
            },
            Type::Subr(su) => {
                let ghost sv = crate::ty::subrty_view(*su);
                let nd = self.subst_pts_x(&su.non_default_params, ctx)?;
                let vp: Option<Box<ParamTy>> = match &su.var_params {
                    Some(p) => {
                        let inner: &ParamTy = p;
                        proof {
                            assert(sv.var_params matches Some(pv) && *pv == paramty_view(*inner));
                        }
                        Some(Box::new(self.subst_pt_x(inner, ctx)?))
                    },
                    None => {
                        proof {
                            assert(sv.var_params is None);
                        }
                        None
                    },
                };
                proof {
                    assert(vp matches Some(b) ==> (sv.var_params matches Some(pv) && subst_pt(
                        subst_view(*self).params,
                        *pv,
                    ) == Ok::<_, ErrorKind>(paramty_view(*b))));
                }
                let dp = self.subst_pts_x(&su.default_params, ctx)?;
                let rt = self.substitute_t(&su.return_t, ctx)?;
                let st = SubrType {
                    kind: su.kind,
                    non_default_params: nd,
                    var_params: vp,
                    default_params: dp,
                    return_t: Box::new(rt),
                };
                proof {
                    assert(crate::ty::subrty_view(st).kind == su.kind);
                    assert(st.var_params matches Some(b) ==> crate::ty::subrty_view(st).var_params
                        matches Some(bv) && *bv == paramty_view(*b));
                    assert(st.var_params is None ==> crate::ty::subrty_view(st).var_params is None);
                }
                let outt = Type::Subr(st);
                proof {
                    assert(type_view(outt) == (match subst_t(
                        subst_view(*self).params,
                        type_view(*param_t),
                    ) {
                        Ok(x) => x,
                        Err(_) => type_view(outt),
                    }));
                }
                Ok(outt)
            },
            Type::And(a, b) => {
                let x = self.substitute_t(a, ctx)?;
                let y = self.substitute_t(b, ctx)?;
                Ok(Type::And(Box::new(x), Box::new(y)))
            },
            Type::Or(a, b) => {
                let x = self.substitute_t(a, ctx)?;
                let y = self.substitute_t(b, ctx)?;
                Ok(Type::Or(Box::new(x), Box::new(y)))
            },
            Type::Not(a, b) => {
                let x = self.substitute_t(a, ctx)?;
                let y = self.substitute_t(b, ctx)?;
                Ok(Type::Not(Box::new(x), Box::new(y)))
            },
            Type::MonoProj { lhs, rhs } => {
                let l = self.substitute_t(lhs, ctx)?;
                Ok(Type::MonoProj { lhs: Box::new(l), rhs: rhs.clone() })
            },
            Type::Record(fields) => {
                let fs = self.subst_rec_x(fields, ctx)?;
                Ok(Type::Record(fs))
            },
            Type::Ref(u) => {
                let x = self.substitute_t(u, ctx)?;
                Ok(Type::Ref(Box::new(x)))
            },
            Type::RefMut { before, after } => {
                let b2 = self.substitute_t(before, ctx)?;
                let a2: Option<Box<Type>> = match after {
                    Some(a) => Some(Box::new(self.substitute_t(a, ctx)?)),
                    None => None,
                };
                proof {
                    assert(a2 matches Some(x) ==> (type_view(*param_t)->RefMut_after matches Some(
                        a0,
                    ) && subst_t(subst_view(*self).params, *a0) == Ok::<_, ErrorKind>(
                        type_view(*x),
                    )));
                }
                Ok(Type::RefMut { before: Box::new(b2), after: a2 })
            },
            Type::Refinement(rf) => {
                let t2 = self.substitute_t(&rf.t, ctx)?;
                let out = RefinementType {
                    var: rf.var.clone(),
                    t: Box::new(t2),
                    preds: crate::deep::preds_dup(&rf.preds),
                };
                proof {
                    assert(crate::ty::refinement_view_probe(out));
                }
                Ok(Type::Refinement(out))
            },
            Type::BuiltinPoly { name, params } => {
                let a = self.subst_tps_x(params, ctx)?;
                Ok(Type::BuiltinPoly { name: name.clone(), params: a })
            },
            Type::Poly { path, name, params } => {
                let a = self.subst_tps_x(params, ctx)?;
                Ok(Type::Poly { path: path.clone(), name: name.clone(), params: a })
            },
            Type::PolyQVar { name, params } => {
                let a = self.subst_tps_x(params, ctx)?;
                Ok(Type::PolyQVar { name: name.clone(), params: a })
            },
            _ => Err(
                EvalError::new(ErrorKind::Feature, Location::Unknown, ctx.name.clone()),
            ),
        }
    }

    fn subst_pt_x(&self, p: &ParamTy, ctx: &Context) -> (r: EvalResult<ParamTy>)
        ensures
            match r {
                Ok(q) => subst_pt(subst_view(*self).params, paramty_view(*p)) == Ok::<
                    _,
                    ErrorKind,
                >(paramty_view(q)),
                Err(e) => subst_pt(subst_view(*self).params, paramty_view(*p)) == Err::<
                    crate::ty::ParamTyV,
                    _,
                >(e.kind),
            },
        decreases *p,
    {
        let t2 = self.substitute_t(&p.t, ctx)?;
        Ok(ParamTy { name: opt_str_dup(&p.name), t: t2 })
    }

    #[verifier::loop_isolation(false)]
    fn subst_pts_x(&self, args: &Vec<ParamTy>, ctx: &Context) -> (r: EvalResult<Vec<ParamTy>>)
        ensures
            match r {
                Ok(a) => subst_pts(subst_view(*self).params, paramtys_view(args@)) == Ok::<
                    _,
                    ErrorKind,
                >(paramtys_view(a@)),
                Err(e) => subst_pts(subst_view(*self).params, paramtys_view(args@)) == Err::<
                    Seq<crate::ty::ParamTyV>,
                    _,
                >(e.kind),
            },
        decreases args@,
    {
        proof {
            lemma_paramtys_view(args@);
        }
        let ghost ps = subst_view(*self).params;
        let ghost sv = paramtys_view(args@);
        let n = args.len();
        let mut out: Vec<ParamTy> = Vec::new();
        let mut i: usize = 0;
        proof {
            assert(sv.subrange(0, 0int) =~= Seq::<crate::ty::ParamTyV>::empty());
        }
        while i < n
            invariant
                i <= n,
                n == args@.len(),
                sv == paramtys_view(args@) && sv.len() == n,
                ps == subst_view(*self).params,
                subst_pts(ps, sv.subrange(0, i as int)) == Ok::<_, ErrorKind>(
                    paramtys_view(out@),
                ),
            decreases n - i,
        {
            proof {
                assert(decreases_to!(args@ => args@[i as int]));
            }
            match self.subst_pt_x(&args[i], ctx) {
                Ok(q) => {
                    let ghost prevseq = out@;
                    out.push(q);
                    proof {
                        assert(out@.drop_last() =~= prevseq);
                        assert(paramtys_view(out@) == paramtys_view(prevseq).push(
                            paramty_view(out@.last()),
                        ));
                        assert(sv.subrange(0, i as int + 1).drop_last() =~= sv.subrange(
                            0,
                            i as int,
                        ));
                        assert(sv.subrange(0, i as int + 1).last() == sv[i as int]);
                    }
                },
                Err(e) => {
                    proof {
                        lemma_subst_pts_err(ps, sv, i as int, n as int, e.kind);
                        assert(sv.subrange(0, n as int) =~= sv);
                    }
                    return Err(e);
                },
            }
            i = i + 1;
        }
        proof {
            assert(sv.subrange(0, n as int) =~= sv);
        }
        Ok(out)
    }

    #[verifier::loop_isolation(false)]
    fn subst_rec_x(&self, fields: &Vec<(Field, Type)>, ctx: &Context) -> (r: EvalResult<
        Vec<(Field, Type)>,
    >)
        ensures
            match r {
                Ok(a) => subst_rec(subst_view(*self).params, record_t_view(fields@)) == Ok::<
                    _,
                    ErrorKind,
                >(record_t_view(a@)),
                Err(e) => subst_rec(subst_view(*self).params, record_t_view(fields@)) == Err::<
                    Seq<(FieldV, TypeV)>,
                    _,
                >(e.kind),
            },
        decreases fields@,
    {
        proof {
            lemma_record_t_view(fields@);
        }
        let ghost ps = subst_view(*self).params;
        let ghost sv = record_t_view(fields@);
        let n = fields.len();
        let mut out: Vec<(Field, Type)> = Vec::new();
        let mut i: usize = 0;
        proof {
            assert(sv.subrange(0, 0int) =~= Seq::<(FieldV, TypeV)>::empty());
        }
        while i < n
            invariant
                i <= n,
                n == fields@.len(),
                sv == record_t_view(fields@) && sv.len() == n,
                ps == subst_view(*self).params,
                subst_rec(ps, sv.subrange(0, i as int)) == Ok::<_, ErrorKind>(
                    record_t_view(out@),
                ),
            decreases n - i,
        {
            proof {
                assert(decreases_to!(fields@ => fields@[i as int]));
                assert(decreases_to!(fields@[i as int] => fields@[i as int].1));
            }
            match self.substitute_t(&fields[i].1, ctx) {
                Ok(t2) => {
                    let f = field_dup(&fields[i].0);
                    let ghost prevseq = out@;
                    out.push((f, t2));
                    proof {
                        assert(out@.drop_last() =~= prevseq);
                        assert(record_t_view(out@) == record_t_view(prevseq).push(
                            (field_view(out@.last().0), type_view(out@.last().1)),
                        ));
                        assert(sv.subrange(0, i as int + 1).drop_last() =~= sv.subrange(
                            0,
                            i as int,
                        ));
                        assert(sv.subrange(0, i as int + 1).last() == sv[i as int]);
                    }
                },
                Err(e) => {
                    proof {
                        lemma_subst_rec_err(ps, sv, i as int, n as int, e.kind);
                        assert(sv.subrange(0, n as int) =~= sv);
                    }
                    return Err(e);
                },
            }
            i = i + 1;
        }
        proof {
            assert(sv.subrange(0, n as int) =~= sv);
        }
        Ok(out)
    }

    /// Instantiates a quantified type under the recorded bounds and
    /// substitutes the bound actuals through its type parameters.
    pub fn substitute(&self, quant_t: Type, ctx: &Context, loc: Location) -> (r: EvalResult<Type>)
        ensures
            match r {
                Ok(t) => subst_apply(
                    subst_view(*self),
                    ctx_view(*ctx).level,
                    type_view(quant_t),
                ) == Ok::<_, ErrorKind>(type_view(t)),
                Err(e) => subst_apply(
                    subst_view(*self),
                    ctx_view(*ctx).level,
                    type_view(quant_t),
                ) == Err::<TypeV, _>(e.kind),
            },
    {
        let tv_ctx = TyVarContext::new(ctx.level, bounds_dup(&self.bounds));
        let inst = match ctx.instantiate_t(quant_t, &tv_ctx, loc) {
            Ok(t) => t,
            Err(e) => {
                proof {
                    assert(false);
                }
                return Err(e);
            },
        };
        match inst {
            Type::BuiltinPoly { name, params } => {
                let a = self.subst_tps_x(&params, ctx)?;
                Ok(Type::BuiltinPoly { name, params: a })
            },
            Type::Poly { path, name, params } => {
                let a = self.subst_tps_x(&params, ctx)?;
                Ok(Type::Poly { path, name, params: a })
            },
            Type::PolyQVar { name, params } => {
                let a = self.subst_tps_x(&params, ctx)?;
                Ok(Type::PolyQVar { name, params: a })
            },
            other => Ok(other),
        }
    }
}

} // verus!
