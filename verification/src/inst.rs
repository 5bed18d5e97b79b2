//! Instantiation and generalization of quantified types.
//!
//! Instantiation replaces quantified variables by fresh unbound free
//! variables carrying the variable's name and, where the bounds give
//! one, its type. Generalization is the reverse walk: unbound free
//! variables become quantified variables again, and links are followed.
//! Quantified wrappers are carried through unchanged.

use vstd::prelude::*;
use crate::error::EvalResult;
use crate::ast::{ParamSig, TypeBoundSpec, TypeSpecAst};
use crate::context::{Context, ContextV, RegistrationMode, TyVarContext, ctx_view, tvctx_view};
use crate::ty::{
    Constraint, ConstraintV, FreeTyParam, FreeTyParamV, FreeTyVar, FreeTyVarV, ParamTy, ParamTyV,
    Predicate, PredV, RefinementType, RefinementV, SubrType, SubrTypeV, TyBound, TyBoundV, TyParam,
    TyParamV, Type, TypeV, bound_view, bounds_view, lemma_bounds_view, lemma_paramtys_view,
    lemma_preds_view, lemma_record_t_view, lemma_typarams_view, opt_str_view, paramty_view,
    paramtys_view, pred_view, preds_view, record_t_view, typaram_view, typarams_view, type_view,
};
use crate::value::{Field, FieldV, field_view};
use crate::deep::{bounds_dup, constraint_dup, field_dup, fvt_dup, fvtp_dup, opt_str_dup, type_dup, typaram_dup, value_dup};

verus! {

/// The ground type a plain name denotes; unknown names denote built-in
/// monomorphic types of that name.
pub open spec fn ground_of_name(n: Seq<char>) -> TypeV {
    if n == "Obj"@ {
        TypeV::Obj
    } else if n == "Int"@ {
        TypeV::Int
    } else if n == "Nat"@ {
        TypeV::Nat
    } else if n == "Ratio"@ {
        TypeV::Ratio
    } else if n == "Str"@ {
        TypeV::Str
    } else if n == "Bool"@ {
        TypeV::Bool
    } else if n == "NoneType"@ {
        TypeV::NoneType
    } else if n == "Never"@ {
        TypeV::Never
    } else if n == "Type"@ {
        TypeV::Type
    } else {
        TypeV::BuiltinMono(n)
    }
}

/// Resolves a plain type name.
pub fn ground_name_type(n: &str) -> (r: Type)
    ensures
        type_view(r) == ground_of_name(n@),
{
    if crate::deep::str_eq(n, "Obj") {
        Type::Obj
    } else if crate::deep::str_eq(n, "Int") {
        Type::Int
    } else if crate::deep::str_eq(n, "Nat") {
        Type::Nat
    } else if crate::deep::str_eq(n, "Ratio") {
        Type::Ratio
    } else if crate::deep::str_eq(n, "Str") {
        Type::Str
    } else if crate::deep::str_eq(n, "Bool") {
        Type::Bool
    } else if crate::deep::str_eq(n, "NoneType") {
        Type::NoneType
    } else if crate::deep::str_eq(n, "Never") {
        Type::Never
    } else if crate::deep::str_eq(n, "Type") {
        Type::Type
    } else {
        Type::BuiltinMono(n.to_owned())
    }
}

/// The constraint the bounds give a variable: the type of its first
/// instance bound, or nothing.
pub open spec fn bound_constraint(bounds: Seq<TyBoundV>, n: Seq<char>) -> ConstraintV
    decreases bounds.len(),
{
    if bounds.len() == 0 {
        ConstraintV::Uninited
    } else {
        match bounds[0] {
            TyBoundV::Instance { name, t } => if name == n {
                ConstraintV::TypeOf(Box::new(t))
            } else {
                bound_constraint(bounds.drop_first(), n)
            },
            _ => bound_constraint(bounds.drop_first(), n),
        }
    }
}

/// Finds the constraint the bounds give a variable.
#[verifier::loop_isolation(false)]
pub fn find_bound_constraint(bounds: &Vec<TyBound>, n: &str) -> (r: Constraint)
    ensures
        crate::ty::constraint_view(r) == bound_constraint(bounds_view(bounds@), n@),
{
    proof {
        lemma_bounds_view(bounds@);
        assert(bounds_view(bounds@).subrange(0, bounds@.len() as int) =~= bounds_view(bounds@));
    }
    let m = bounds.len();
    let mut i: usize = 0;
    while i < m
        invariant
            i <= m,
            m == bounds@.len(),
            bound_constraint(bounds_view(bounds@), n@) == bound_constraint(
                bounds_view(bounds@).subrange(i as int, m as int),
                n@,
            ),
        decreases m - i,
    {
        let ghost pre = bounds_view(bounds@).subrange(i as int, m as int);
        proof {
            assert(pre[0] == bound_view(bounds@[i as int]));
            assert(pre.drop_first() =~= bounds_view(bounds@).subrange(i as int + 1, m as int));
        }
        match &bounds[i] {
            TyBound::Instance { name, t } => {
                if crate::deep::str_eq(name.as_str(), n) {
                    return Constraint::TypeOf(Box::new(type_dup(t)));
                }
            },
            _ => {},
        }
        i = i + 1;
    }
    Constraint::Uninited
}

// ---------------------------------------------------------------------
// The model of instantiation.
// ---------------------------------------------------------------------

pub open spec fn inst_t(t: TypeV, lv: nat, bs: Seq<TyBoundV>) -> TypeV
    decreases t,
{
    match t {
        TypeV::MonoQVar(n) => TypeV::FreeVar(
            Box::new(
                FreeTyVarV::Unbound {
                    name: Some(n),
                    level: lv,
                    constraint: bound_constraint(bs, n),
                },
            ),
        ),
        TypeV::PolyQVar { name, params } => TypeV::BuiltinPoly {
            name,
            params: inst_tps(params, lv, bs),
        },
        TypeV::Subr(s) => TypeV::Subr(
            SubrTypeV {
                kind: s.kind,
                non_default_params: inst_pts(s.non_default_params, lv, bs),
                var_params: match s.var_params {
                    Some(p) => Some(Box::new(inst_pt(*p, lv, bs))),
                    None => None,
                },
                default_params: inst_pts(s.default_params, lv, bs),
                return_t: Box::new(inst_t(*s.return_t, lv, bs)),
            },
        ),
        TypeV::Refinement(rf) => TypeV::Refinement(
            RefinementV {
                var: rf.var,
                t: Box::new(inst_t(*rf.t, lv, bs)),
                preds: inst_preds(rf.preds, lv, bs),
            },
        ),
        TypeV::Ref(u) => TypeV::Ref(Box::new(inst_t(*u, lv, bs))),
        TypeV::RefMut { before, after } => TypeV::RefMut {
            before: Box::new(inst_t(*before, lv, bs)),
            after: match after {
                Some(a) => Some(Box::new(inst_t(*a, lv, bs))),
                None => None,
            },
        },
        TypeV::Record(fields) => TypeV::Record(inst_rec(fields, lv, bs)),
        TypeV::BuiltinPoly { name, params } => TypeV::BuiltinPoly {
            name,
            params: inst_tps(params, lv, bs),
        },
        TypeV::Poly { path, name, params } => TypeV::Poly {
            path,
            name,
            params: inst_tps(params, lv, bs),
        },
        TypeV::MonoProj { lhs, rhs } => TypeV::MonoProj {
            lhs: Box::new(inst_t(*lhs, lv, bs)),
            rhs,
        },
        TypeV::And(a, b) => TypeV::And(
            Box::new(inst_t(*a, lv, bs)),
            Box::new(inst_t(*b, lv, bs)),
        ),
        TypeV::Or(a, b) => TypeV::Or(
            Box::new(inst_t(*a, lv, bs)),
            Box::new(inst_t(*b, lv, bs)),
        ),
        TypeV::Not(a, b) => TypeV::Not(
            Box::new(inst_t(*a, lv, bs)),
            Box::new(inst_t(*b, lv, bs)),
        ),
        other => other,
    }
}

pub open spec fn inst_tp(p: TyParamV, lv: nat, bs: Seq<TyBoundV>) -> TyParamV
    decreases p,
{
    match p {
        TyParamV::MonoQVar(n) => TyParamV::FreeVar(
            Box::new(
                FreeTyParamV::Unbound {
                    name: Some(n),
                    level: lv,
                    t: Box::new(
                        match bound_constraint(bs, n) {
                            ConstraintV::TypeOf(t) => *t,
                            _ => TypeV::Obj,
                        },
                    ),
                },
            ),
        ),
        TyParamV::Type(t) => TyParamV::Type(Box::new(inst_t(*t, lv, bs))),
        TyParamV::BinOp { op, lhs, rhs } => TyParamV::BinOp {
            op,
            lhs: Box::new(inst_tp(*lhs, lv, bs)),
            rhs: Box::new(inst_tp(*rhs, lv, bs)),
        },
        TyParamV::UnaryOp { op, val } => TyParamV::UnaryOp {
            op,
            val: Box::new(inst_tp(*val, lv, bs)),
        },
        TyParamV::Array(args) => TyParamV::Array(inst_tps(args, lv, bs)),
        TyParamV::Tuple(args) => TyParamV::Tuple(inst_tps(args, lv, bs)),
        TyParamV::App { name, args } => TyParamV::App { name, args: inst_tps(args, lv, bs) },
        TyParamV::PolyQVar { name, args } => TyParamV::PolyQVar {
            name,
            args: inst_tps(args, lv, bs),
        },
        TyParamV::MonoProj { obj, attr } => TyParamV::MonoProj {
            obj: Box::new(inst_tp(*obj, lv, bs)),
            attr,
        },
        other => other,
    }
}

pub open spec fn inst_pt(p: ParamTyV, lv: nat, bs: Seq<TyBoundV>) -> ParamTyV
    decreases p,
{
    ParamTyV { name: p.name, t: inst_t(p.t, lv, bs) }
}

pub open spec fn inst_tps(s: Seq<TyParamV>, lv: nat, bs: Seq<TyBoundV>) -> Seq<TyParamV>
    decreases s,
{
    if s.len() == 0 {
        Seq::empty()
    } else {
        inst_tps(s.drop_last(), lv, bs).push(inst_tp(s.last(), lv, bs))
    }
}

pub open spec fn inst_pts(s: Seq<ParamTyV>, lv: nat, bs: Seq<TyBoundV>) -> Seq<ParamTyV>
    decreases s,
{
    if s.len() == 0 {
        Seq::empty()
    } else {
        inst_pts(s.drop_last(), lv, bs).push(inst_pt(s.last(), lv, bs))
    }
}

pub open spec fn inst_pred(p: PredV, lv: nat, bs: Seq<TyBoundV>) -> PredV
    decreases p,
{
    match p {
        PredV::Equal { lhs, rhs } => PredV::Equal { lhs, rhs: inst_tp(rhs, lv, bs) },
        PredV::NotEqual { lhs, rhs } => PredV::NotEqual { lhs, rhs: inst_tp(rhs, lv, bs) },
        PredV::LessEqual { lhs, rhs } => PredV::LessEqual { lhs, rhs: inst_tp(rhs, lv, bs) },
        PredV::GreaterEqual { lhs, rhs } => PredV::GreaterEqual {
            lhs,
            rhs: inst_tp(rhs, lv, bs),
        },
        PredV::And(a, b) => PredV::And(
            Box::new(inst_pred(*a, lv, bs)),
            Box::new(inst_pred(*b, lv, bs)),
        ),
        PredV::Or(a, b) => PredV::Or(
            Box::new(inst_pred(*a, lv, bs)),
            Box::new(inst_pred(*b, lv, bs)),
        ),
        PredV::Not(a, b) => PredV::Not(
            Box::new(inst_pred(*a, lv, bs)),
            Box::new(inst_pred(*b, lv, bs)),
        ),
        other => other,
    }
}

pub open spec fn inst_preds(s: Seq<PredV>, lv: nat, bs: Seq<TyBoundV>) -> Seq<PredV>
    decreases s,
{
    if s.len() == 0 {
        Seq::empty()
    } else {
        inst_preds(s.drop_last(), lv, bs).push(inst_pred(s.last(), lv, bs))
    }
}

pub open spec fn inst_rec(s: Seq<(FieldV, TypeV)>, lv: nat, bs: Seq<TyBoundV>) -> Seq<
    (FieldV, TypeV),
>
    decreases s,
{
    if s.len() == 0 {
        Seq::empty()
    } else {
        inst_rec(s.drop_last(), lv, bs).push((s.last().0, inst_t(s.last().1, lv, bs)))
    }
}

pub proof fn lemma_inst_tps(s: Seq<TyParamV>, lv: nat, bs: Seq<TyBoundV>)
    ensures
        inst_tps(s, lv, bs).len() == s.len(),
        forall|i: int| 0 <= i < s.len() ==> inst_tps(s, lv, bs)[i] == inst_tp(s[i], lv, bs),
    decreases s,
{
    if s.len() > 0 {
        lemma_inst_tps(s.drop_last(), lv, bs);
    }
}

pub proof fn lemma_inst_pts(s: Seq<ParamTyV>, lv: nat, bs: Seq<TyBoundV>)
    ensures
        inst_pts(s, lv, bs).len() == s.len(),
        forall|i: int| 0 <= i < s.len() ==> inst_pts(s, lv, bs)[i] == inst_pt(s[i], lv, bs),
    decreases s,
{
    if s.len() > 0 {
        lemma_inst_pts(s.drop_last(), lv, bs);
    }
}

pub proof fn lemma_inst_preds(s: Seq<PredV>, lv: nat, bs: Seq<TyBoundV>)
    ensures
        inst_preds(s, lv, bs).len() == s.len(),
        forall|i: int| 0 <= i < s.len() ==> inst_preds(s, lv, bs)[i] == inst_pred(s[i], lv, bs),
    decreases s,
{
    if s.len() > 0 {
        lemma_inst_preds(s.drop_last(), lv, bs);
    }
}

pub proof fn lemma_inst_rec(s: Seq<(FieldV, TypeV)>, lv: nat, bs: Seq<TyBoundV>)
    ensures
        inst_rec(s, lv, bs).len() == s.len(),
        forall|i: int| 0 <= i < s.len() ==> inst_rec(s, lv, bs)[i] == (
        s[i].0,
        inst_t(s[i].1, lv, bs),
        ),
    decreases s,
{
    if s.len() > 0 {
        lemma_inst_rec(s.drop_last(), lv, bs);
    }
}


// ---------------------------------------------------------------------
// The model of generalization.
// ---------------------------------------------------------------------

pub open spec fn gen_t(t: TypeV) -> TypeV
    decreases t,
{
    match t {
        TypeV::FreeVar(f) => match *f {
            FreeTyVarV::Unbound { name, .. } => match name {
                Some(n) => TypeV::MonoQVar(n),
                None => TypeV::MonoQVar("_"@),
            },
            FreeTyVarV::Linked(u) => gen_t(*u),
        },
        TypeV::Subr(s) => TypeV::Subr(
            SubrTypeV {
                kind: s.kind,
                non_default_params: gen_pts(s.non_default_params),
                var_params: match s.var_params {
                    Some(p) => Some(Box::new(gen_pt(*p))),
                    None => None,
                },
                default_params: gen_pts(s.default_params),
                return_t: Box::new(gen_t(*s.return_t)),
            },
        ),
        TypeV::Refinement(rf) => TypeV::Refinement(
            RefinementV { var: rf.var, t: Box::new(gen_t(*rf.t)), preds: gen_preds(rf.preds) },
        ),
        TypeV::Ref(u) => TypeV::Ref(Box::new(gen_t(*u))),
        TypeV::RefMut { before, after } => TypeV::RefMut {
            before: Box::new(gen_t(*before)),
            after: match after {
                Some(a) => Some(Box::new(gen_t(*a))),
                None => None,
            },
        },
        TypeV::Record(fields) => TypeV::Record(gen_rec(fields)),
        TypeV::BuiltinPoly { name, params } => TypeV::BuiltinPoly {
            name,
            params: gen_tps(params),
        },
        TypeV::Poly { path, name, params } => TypeV::Poly { path, name, params: gen_tps(params) },
        TypeV::MonoProj { lhs, rhs } => TypeV::MonoProj { lhs: Box::new(gen_t(*lhs)), rhs },
        TypeV::And(a, b) => TypeV::And(Box::new(gen_t(*a)), Box::new(gen_t(*b))),
        TypeV::Or(a, b) => TypeV::Or(Box::new(gen_t(*a)), Box::new(gen_t(*b))),
        TypeV::Not(a, b) => TypeV::Not(Box::new(gen_t(*a)), Box::new(gen_t(*b))),
        other => other,
    }
}

pub open spec fn gen_tp(p: TyParamV) -> TyParamV
    decreases p,
{
    match p {
        TyParamV::FreeVar(f) => match *f {
            FreeTyParamV::Unbound { name, .. } => match name {
                Some(n) => TyParamV::MonoQVar(n),
                None => TyParamV::MonoQVar("_"@),
            },
            FreeTyParamV::Linked(u) => gen_tp(*u),
        },
        TyParamV::Type(t) => TyParamV::Type(Box::new(gen_t(*t))),
        TyParamV::BinOp { op, lhs, rhs } => TyParamV::BinOp {
            op,
            lhs: Box::new(gen_tp(*lhs)),
            rhs: Box::new(gen_tp(*rhs)),
        },
        TyParamV::UnaryOp { op, val } => TyParamV::UnaryOp { op, val: Box::new(gen_tp(*val)) },
        TyParamV::Array(args) => TyParamV::Array(gen_tps(args)),
        TyParamV::Tuple(args) => TyParamV::Tuple(gen_tps(args)),
        TyParamV::App { name, args } => TyParamV::App { name, args: gen_tps(args) },
        TyParamV::PolyQVar { name, args } => TyParamV::PolyQVar { name, args: gen_tps(args) },
        TyParamV::MonoProj { obj, attr } => TyParamV::MonoProj {
            obj: Box::new(gen_tp(*obj)),
            attr,
        },
        other => other,
    }
}

pub open spec fn gen_pt(p: ParamTyV) -> ParamTyV
    decreases p,
{
    ParamTyV { name: p.name, t: gen_t(p.t) }
}

pub open spec fn gen_tps(s: Seq<TyParamV>) -> Seq<TyParamV>
    decreases s,
{
    if s.len() == 0 {
        Seq::empty()
    } else {
        gen_tps(s.drop_last()).push(gen_tp(s.last()))
    }
}

pub open spec fn gen_pts(s: Seq<ParamTyV>) -> Seq<ParamTyV>
    decreases s,
{
    if s.len() == 0 {
        Seq::empty()
    } else {
        gen_pts(s.drop_last()).push(gen_pt(s.last()))
    }
}

pub open spec fn gen_pred(p: PredV) -> PredV
    decreases p,
{
    match p {
        PredV::Equal { lhs, rhs } => PredV::Equal { lhs, rhs: gen_tp(rhs) },
        PredV::NotEqual { lhs, rhs } => PredV::NotEqual { lhs, rhs: gen_tp(rhs) },
        PredV::LessEqual { lhs, rhs } => PredV::LessEqual { lhs, rhs: gen_tp(rhs) },
        PredV::GreaterEqual { lhs, rhs } => PredV::GreaterEqual { lhs, rhs: gen_tp(rhs) },
        PredV::And(a, b) => PredV::And(Box::new(gen_pred(*a)), Box::new(gen_pred(*b))),
        PredV::Or(a, b) => PredV::Or(Box::new(gen_pred(*a)), Box::new(gen_pred(*b))),
        PredV::Not(a, b) => PredV::Not(Box::new(gen_pred(*a)), Box::new(gen_pred(*b))),
        other => other,
    }
}

pub open spec fn gen_preds(s: Seq<PredV>) -> Seq<PredV>
    decreases s,
{
    if s.len() == 0 {
        Seq::empty()
    } else {
        gen_preds(s.drop_last()).push(gen_pred(s.last()))
    }
}

pub open spec fn gen_rec(s: Seq<(FieldV, TypeV)>) -> Seq<(FieldV, TypeV)>
    decreases s,
{
    if s.len() == 0 {
        Seq::empty()
    } else {
        gen_rec(s.drop_last()).push((s.last().0, gen_t(s.last().1)))
    }
}

pub proof fn lemma_gen_tps(s: Seq<TyParamV>)
    ensures
        gen_tps(s).len() == s.len(),
        forall|i: int| 0 <= i < s.len() ==> gen_tps(s)[i] == gen_tp(s[i]),
    decreases s,
{
    if s.len() > 0 {
        lemma_gen_tps(s.drop_last());
    }
}

pub proof fn lemma_gen_pts(s: Seq<ParamTyV>)
    ensures
        gen_pts(s).len() == s.len(),
        forall|i: int| 0 <= i < s.len() ==> gen_pts(s)[i] == gen_pt(s[i]),
    decreases s,
{
    if s.len() > 0 {
        lemma_gen_pts(s.drop_last());
    }
}

pub proof fn lemma_gen_preds(s: Seq<PredV>)
    ensures
        gen_preds(s).len() == s.len(),
        forall|i: int| 0 <= i < s.len() ==> gen_preds(s)[i] == gen_pred(s[i]),
    decreases s,
{
    if s.len() > 0 {
        lemma_gen_preds(s.drop_last());
    }
}

pub proof fn lemma_gen_rec(s: Seq<(FieldV, TypeV)>)
    ensures
        gen_rec(s).len() == s.len(),
        forall|i: int| 0 <= i < s.len() ==> gen_rec(s)[i] == (s[i].0, gen_t(s[i].1)),
    decreases s,
{
    if s.len() > 0 {
        lemma_gen_rec(s.drop_last());
    }
}


// ---------------------------------------------------------------------
// Executable instantiation.
// ---------------------------------------------------------------------

pub fn inst_type(t: &Type, lv: usize, bs: &Vec<TyBound>) -> (r: Type)
    ensures
        type_view(r) == inst_t(type_view(*t), lv as nat, bounds_view(bs@)),
    decreases *t,
{
    match t {
        Type::MonoQVar(n) => {
            let c = find_bound_constraint(bs, n.as_str());
            let fv = FreeTyVar::Unbound { name: Some(n.clone()), level: lv, constraint: c };
            proof {
                assert(crate::ty::fvt_view(fv) == (FreeTyVarV::Unbound {
                    name: Some(n@),
                    level: lv as nat,
                    constraint: bound_constraint(bounds_view(bs@), n@),
                }));
            }
            let out = Type::FreeVar(Box::new(fv));
            proof {
                assert(type_view(out) == inst_t(type_view(*t), lv as nat, bounds_view(bs@)));
            }
            out
        },
        Type::PolyQVar { name, params } => {
            let out = Type::BuiltinPoly {
            name: name.clone(),
            params: inst_tps_x(params, lv, bs),
        };
            proof {
                assert(type_view(out) == inst_t(type_view(*t), lv as nat, bounds_view(bs@)));
            }
            out
        },
        Type::Subr(su) => {
            let ghost sv = crate::ty::subrty_view(*su);
            let vp: Option<Box<ParamTy>> = match &su.var_params {
                Some(p) => {
                    let inner: &ParamTy = p;
                    proof {
                        assert(sv.var_params matches Some(pv) && *pv == paramty_view(*inner));
                    }
                    Some(Box::new(inst_pt_x(inner, lv, bs)))
                },
                None => {
                    proof {
                        assert(sv.var_params is None);
                    }
                    None
                },
            };
            proof {
                assert(vp matches Some(b) ==> (sv.var_params matches Some(pv) && paramty_view(*b)
                    == inst_pt(*pv, lv as nat, bounds_view(bs@))));
            }
            let st = SubrType {
                kind: su.kind,
                non_default_params: inst_pts_x(&su.non_default_params, lv, bs),
                var_params: vp,
                default_params: inst_pts_x(&su.default_params, lv, bs),
                return_t: Box::new(inst_type(&su.return_t, lv, bs)),
            };
            proof {
                assert(crate::ty::subrty_view(st).kind == su.kind);
                assert(st.var_params matches Some(b) ==> crate::ty::subrty_view(st).var_params
                    matches Some(bv) && *bv == paramty_view(*b));
                assert(crate::ty::subrty_view(st).var_params == (match sv.var_params {
                    Some(pv) => Some(Box::new(inst_pt(*pv, lv as nat, bounds_view(bs@)))),
                    None => None,
                }));
            }
            let outt = Type::Subr(st);
            proof {
                assert(type_view(outt) == inst_t(type_view(*t), lv as nat, bounds_view(bs@)));
            }
            outt
        },
        Type::Refinement(rf) => {
            let out = RefinementType {
                var: rf.var.clone(),
                t: Box::new(inst_type(&rf.t, lv, bs)),
                preds: inst_preds_x(&rf.preds, lv, bs),
            };
            proof {
                assert(crate::ty::refinement_view_probe(out));
            }
            let outt = Type::Refinement(out);
            proof {
                assert(type_view(outt) == inst_t(type_view(*t), lv as nat, bounds_view(bs@)));
            }
            outt
        },
        Type::Ref(u) => {
            let out = Type::Ref(Box::new(inst_type(u, lv, bs)));
            proof {
                assert(type_view(out) == inst_t(type_view(*t), lv as nat, bounds_view(bs@)));
            }
            out
        },
        Type::RefMut { before, after } => {
            let out = Type::RefMut {
            before: Box::new(inst_type(before, lv, bs)),
            after: match after {
                Some(a) => Some(Box::new(inst_type(a, lv, bs))),
                None => None,
            },
        };
            proof {
                assert(type_view(out) == inst_t(type_view(*t), lv as nat, bounds_view(bs@)));
            }
            out
        },
        Type::Record(fields) => {
            let out = Type::Record(inst_rec_x(fields, lv, bs));
            proof {
                assert(type_view(out) == inst_t(type_view(*t), lv as nat, bounds_view(bs@)));
            }
            out
        },
        Type::BuiltinPoly { name, params } => {
            let out = Type::BuiltinPoly {
            name: name.clone(),
            params: inst_tps_x(params, lv, bs),
        };
            proof {
                assert(type_view(out) == inst_t(type_view(*t), lv as nat, bounds_view(bs@)));
            }
            out
        },
        Type::Poly { path, name, params } => {
            let out = Type::Poly {
            path: path.clone(),
            name: name.clone(),
            params: inst_tps_x(params, lv, bs),
        };
            proof {
                assert(type_view(out) == inst_t(type_view(*t), lv as nat, bounds_view(bs@)));
            }
            out
        },
        Type::MonoProj { lhs, rhs } => {
            let out = Type::MonoProj {
            lhs: Box::new(inst_type(lhs, lv, bs)),
            rhs: rhs.clone(),
        };
            proof {
                assert(type_view(out) == inst_t(type_view(*t), lv as nat, bounds_view(bs@)));
            }
            out
        },
        Type::And(a, b) => {
            let out = Type::And(
            Box::new(inst_type(a, lv, bs)),
            Box::new(inst_type(b, lv, bs)),
        );
            proof {
                assert(type_view(out) == inst_t(type_view(*t), lv as nat, bounds_view(bs@)));
            }
            out
        },
        Type::Or(a, b) => {
            let out = Type::Or(
            Box::new(inst_type(a, lv, bs)),
            Box::new(inst_type(b, lv, bs)),
        );
            proof {
                assert(type_view(out) == inst_t(type_view(*t), lv as nat, bounds_view(bs@)));
            }
            out
        },
        Type::Not(a, b) => {
            let out = Type::Not(
            Box::new(inst_type(a, lv, bs)),
            Box::new(inst_type(b, lv, bs)),
        );
            proof {
                assert(type_view(out) == inst_t(type_view(*t), lv as nat, bounds_view(bs@)));
            }
            out
        },
        other => {
            let out = type_dup(other);
            proof {
                assert(type_view(out) == inst_t(type_view(*t), lv as nat, bounds_view(bs@)));
            }
            out
        },
    }
}

pub fn inst_typaram(p: &TyParam, lv: usize, bs: &Vec<TyBound>) -> (r: TyParam)
    ensures
        typaram_view(r) == inst_tp(typaram_view(*p), lv as nat, bounds_view(bs@)),
    decreases *p,
{
    match p {
        TyParam::MonoQVar(n) => {
            let c = find_bound_constraint(bs, n.as_str());
            let ghost cv = crate::ty::constraint_view(c);
            let t: Type = match c {
                Constraint::TypeOf(t) => *t,
                _ => Type::Obj,
            };
            proof {
                assert(type_view(t) == (match cv {
                    ConstraintV::TypeOf(t0) => *t0,
                    _ => TypeV::Obj,
                }));
            }
            let fv = FreeTyParam::Unbound { name: Some(n.clone()), level: lv, t: Box::new(t) };
            proof {
                assert(crate::ty::fvtp_view(fv) == (FreeTyParamV::Unbound {
                    name: Some(n@),
                    level: lv as nat,
                    t: Box::new(
                        match bound_constraint(bounds_view(bs@), n@) {
                            ConstraintV::TypeOf(t0) => *t0,
                            _ => TypeV::Obj,
                        },
                    ),
                }));
            }
            let out = TyParam::FreeVar(Box::new(fv));
            proof {
                assert(typaram_view(out) == inst_tp(typaram_view(*p), lv as nat, bounds_view(bs@)));
            }
            out
        },
        TyParam::Type(t) => TyParam::Type(Box::new(inst_type(t, lv, bs))),
        TyParam::BinOp { op, lhs, rhs } => TyParam::BinOp {
            op: *op,
            lhs: Box::new(inst_typaram(lhs, lv, bs)),
            rhs: Box::new(inst_typaram(rhs, lv, bs)),
        },
        TyParam::UnaryOp { op, val } => TyParam::UnaryOp {
            op: *op,
            val: Box::new(inst_typaram(val, lv, bs)),
        },
        TyParam::Array(args) => TyParam::Array(inst_tps_x(args, lv, bs)),
        TyParam::Tuple(args) => TyParam::Tuple(inst_tps_x(args, lv, bs)),
        TyParam::App { name, args } => TyParam::App {
            name: name.clone(),
            args: inst_tps_x(args, lv, bs),
        },
        TyParam::PolyQVar { name, args } => TyParam::PolyQVar {
            name: name.clone(),
            args: inst_tps_x(args, lv, bs),
        },
        TyParam::MonoProj { obj, attr } => TyParam::MonoProj {
            obj: Box::new(inst_typaram(obj, lv, bs)),
            attr: attr.clone(),
        },
        other => typaram_dup(other),
    }
}

fn inst_pt_x(p: &ParamTy, lv: usize, bs: &Vec<TyBound>) -> (r: ParamTy)
    ensures
        paramty_view(r) == inst_pt(paramty_view(*p), lv as nat, bounds_view(bs@)),
    decreases *p,
{
    ParamTy { name: opt_str_dup(&p.name), t: inst_type(&p.t, lv, bs) }
}

fn inst_pred_x(p: &Predicate, lv: usize, bs: &Vec<TyBound>) -> (r: Predicate)
    ensures
        pred_view(r) == inst_pred(pred_view(*p), lv as nat, bounds_view(bs@)),
    decreases *p,
{
    match p {
        Predicate::Equal { lhs, rhs } => Predicate::Equal {
            lhs: lhs.clone(),
            rhs: inst_typaram(rhs, lv, bs),
        },
        Predicate::NotEqual { lhs, rhs } => Predicate::NotEqual {
            lhs: lhs.clone(),
            rhs: inst_typaram(rhs, lv, bs),
        },
        Predicate::LessEqual { lhs, rhs } => Predicate::LessEqual {
            lhs: lhs.clone(),
            rhs: inst_typaram(rhs, lv, bs),
        },
        Predicate::GreaterEqual { lhs, rhs } => Predicate::GreaterEqual {
            lhs: lhs.clone(),
            rhs: inst_typaram(rhs, lv, bs),
        },
        Predicate::And(a, b) => Predicate::And(
            Box::new(inst_pred_x(a, lv, bs)),
            Box::new(inst_pred_x(b, lv, bs)),
        ),
        Predicate::Or(a, b) => Predicate::Or(
            Box::new(inst_pred_x(a, lv, bs)),
            Box::new(inst_pred_x(b, lv, bs)),
        ),
        Predicate::Not(a, b) => Predicate::Not(
            Box::new(inst_pred_x(a, lv, bs)),
            Box::new(inst_pred_x(b, lv, bs)),
        ),
        other => crate::deep::pred_dup(other),
    }
}

#[verifier::loop_isolation(false)]
fn inst_tps_x(v: &Vec<TyParam>, lv: usize, bs: &Vec<TyBound>) -> (r: Vec<TyParam>)
    ensures
        typarams_view(r@) == inst_tps(typarams_view(v@), lv as nat, bounds_view(bs@)),
    decreases v@,
{
    proof {
        lemma_typarams_view(v@);
        lemma_inst_tps(typarams_view(v@), lv as nat, bounds_view(bs@));
    }
    let n = v.len();
    let mut out: Vec<TyParam> = Vec::new();
    let mut i: usize = 0;
    while i < n
        invariant
            i <= n,
            n == v@.len(),
            out@.len() == i,
            forall|j: int| 0 <= j < i ==> typaram_view(out@[j]) == inst_tp(
                typaram_view(v@[j]),
                lv as nat,
                bounds_view(bs@),
            ),
        decreases n - i,
    {
        proof {
            assert(decreases_to!(v@ => v@[i as int]));
        }
        let d = inst_typaram(&v[i], lv, bs);
        out.push(d);
        i = i + 1;
    }
    proof {
        lemma_typarams_view(out@);
        assert(typarams_view(out@) =~= inst_tps(typarams_view(v@), lv as nat, bounds_view(bs@)));
    }
    out
}

#[verifier::loop_isolation(false)]
fn inst_pts_x(v: &Vec<ParamTy>, lv: usize, bs: &Vec<TyBound>) -> (r: Vec<ParamTy>)
    ensures
        paramtys_view(r@) == inst_pts(paramtys_view(v@), lv as nat, bounds_view(bs@)),
    decreases v@,
{
    proof {
        lemma_paramtys_view(v@);
        lemma_inst_pts(paramtys_view(v@), lv as nat, bounds_view(bs@));
    }
    let n = v.len();
    let mut out: Vec<ParamTy> = Vec::new();
    let mut i: usize = 0;
    while i < n
        invariant
            i <= n,
            n == v@.len(),
            out@.len() == i,
            forall|j: int| 0 <= j < i ==> paramty_view(out@[j]) == inst_pt(
                paramty_view(v@[j]),
                lv as nat,
                bounds_view(bs@),
            ),
        decreases n - i,
    {
        proof {
            assert(decreases_to!(v@ => v@[i as int]));
        }
        let d = inst_pt_x(&v[i], lv, bs);
        out.push(d);
        i = i + 1;
    }
    proof {
        lemma_paramtys_view(out@);
        assert(paramtys_view(out@) =~= inst_pts(paramtys_view(v@), lv as nat, bounds_view(bs@)));
    }
    out
}

#[verifier::loop_isolation(false)]
fn inst_preds_x(v: &Vec<Predicate>, lv: usize, bs: &Vec<TyBound>) -> (r: Vec<Predicate>)
    ensures
        preds_view(r@) == inst_preds(preds_view(v@), lv as nat, bounds_view(bs@)),
    decreases v@,
{
    proof {
        lemma_preds_view(v@);
        lemma_inst_preds(preds_view(v@), lv as nat, bounds_view(bs@));
    }
    let n = v.len();
    let mut out: Vec<Predicate> = Vec::new();
    let mut i: usize = 0;
    while i < n
        invariant
            i <= n,
            n == v@.len(),
            out@.len() == i,
            forall|j: int| 0 <= j < i ==> pred_view(out@[j]) == inst_pred(
                pred_view(v@[j]),
                lv as nat,
                bounds_view(bs@),
            ),
        decreases n - i,
    {
        proof {
            assert(decreases_to!(v@ => v@[i as int]));
        }
        let d = inst_pred_x(&v[i], lv, bs);
        out.push(d);
        i = i + 1;
    }
    proof {
        lemma_preds_view(out@);
        assert(preds_view(out@) =~= inst_preds(preds_view(v@), lv as nat, bounds_view(bs@)));
    }
    out
}

#[verifier::loop_isolation(false)]
fn inst_rec_x(v: &Vec<(Field, Type)>, lv: usize, bs: &Vec<TyBound>) -> (r: Vec<(Field, Type)>)
    ensures
        record_t_view(r@) == inst_rec(record_t_view(v@), lv as nat, bounds_view(bs@)),
    decreases v@,
{
    proof {
        lemma_record_t_view(v@);
        lemma_inst_rec(record_t_view(v@), lv as nat, bounds_view(bs@));
    }
    let n = v.len();
    let mut out: Vec<(Field, Type)> = Vec::new();
    let mut i: usize = 0;
    while i < n
        invariant
            i <= n,
            n == v@.len(),
            out@.len() == i,
            forall|j: int| 0 <= j < i ==> field_view(out@[j].0) == field_view(v@[j].0)
                && type_view(out@[j].1) == inst_t(
                type_view(v@[j].1),
                lv as nat,
                bounds_view(bs@),
            ),
        decreases n - i,
    {
        proof {
            assert(decreases_to!(v@ => v@[i as int]));
            assert(decreases_to!(v@[i as int] => v@[i as int].1));
        }
        let f = field_dup(&v[i].0);
        let d = inst_type(&v[i].1, lv, bs);
        out.push((f, d));
        i = i + 1;
    }
    proof {
        lemma_record_t_view(out@);
        assert(record_t_view(out@) =~= inst_rec(record_t_view(v@), lv as nat, bounds_view(bs@)));
    }
    out
}

// ---------------------------------------------------------------------
// Executable generalization.
// ---------------------------------------------------------------------

pub fn gen_type(t: &Type) -> (r: Type)
    ensures
        type_view(r) == gen_t(type_view(*t)),
    decreases *t,
{
    match t {
        Type::FreeVar(f) => {
            let fv: &FreeTyVar = f;
            proof {
                assert(type_view(*t) == TypeV::FreeVar(Box::new(crate::ty::fvt_view(*fv))));
            }
            match fv {
                FreeTyVar::Unbound { name, .. } => {
                    proof {
                        assert(crate::ty::fvt_view(*fv) matches FreeTyVarV::Unbound { .. });
                        assert(crate::ty::fvt_view(*fv)->Unbound_name == opt_str_view(*name));
                    }
                    match name {
                        Some(n) => Type::MonoQVar(n.clone()),
                        None => Type::MonoQVar("_".to_owned()),
                    }
                },
                FreeTyVar::Linked(u) => {
                    let inner: &Type = u;
                    proof {
                        assert(crate::ty::fvt_view(*fv) == FreeTyVarV::Linked(
                            Box::new(type_view(*inner)),
                        ));
                    }
                    gen_type(inner)
                },
            }
        },
        Type::Subr(su) => {
            let ghost sv = crate::ty::subrty_view(*su);
            let vp: Option<Box<ParamTy>> = match &su.var_params {
                Some(p) => {
                    let inner: &ParamTy = p;
                    proof {
                        assert(sv.var_params matches Some(pv) && *pv == paramty_view(*inner));
                    }
                    Some(Box::new(gen_pt_x(inner)))
                },
                None => {
                    proof {
                        assert(sv.var_params is None);
                    }
                    None
                },
            };
            proof {
                assert(vp matches Some(b) ==> (sv.var_params matches Some(pv) && paramty_view(*b)
                    == gen_pt(*pv)));
            }
            let st = SubrType {
                kind: su.kind,
                non_default_params: gen_pts_x(&su.non_default_params),
                var_params: vp,
                default_params: gen_pts_x(&su.default_params),
                return_t: Box::new(gen_type(&su.return_t)),
            };
            proof {
                assert(crate::ty::subrty_view(st).kind == su.kind);
                assert(st.var_params matches Some(b) ==> crate::ty::subrty_view(st).var_params
                    matches Some(bv) && *bv == paramty_view(*b));
                assert(crate::ty::subrty_view(st).var_params == (match sv.var_params {
                    Some(pv) => Some(Box::new(gen_pt(*pv))),
                    None => None,
                }));
            }
            let outt = Type::Subr(st);
            proof {
                assert(type_view(outt) == gen_t(type_view(*t)));
            }
            outt
        },
        Type::Refinement(rf) => {
            let out = RefinementType {
                var: rf.var.clone(),
                t: Box::new(gen_type(&rf.t)),
                preds: gen_preds_x(&rf.preds),
            };
            proof {
                assert(crate::ty::refinement_view_probe(out));
            }
            Type::Refinement(out)
        },
        Type::Ref(u) => Type::Ref(Box::new(gen_type(u))),
        Type::RefMut { before, after } => Type::RefMut {
            before: Box::new(gen_type(before)),
            after: match after {
                Some(a) => Some(Box::new(gen_type(a))),
                None => None,
            },
        },
        Type::Record(fields) => Type::Record(gen_rec_x(fields)),
        Type::BuiltinPoly { name, params } => Type::BuiltinPoly {
            name: name.clone(),
            params: gen_tps_x(params),
        },
        Type::Poly { path, name, params } => Type::Poly {
            path: path.clone(),
            name: name.clone(),
            params: gen_tps_x(params),
        },
        Type::MonoProj { lhs, rhs } => Type::MonoProj {
            lhs: Box::new(gen_type(lhs)),
            rhs: rhs.clone(),
        },
        Type::And(a, b) => Type::And(Box::new(gen_type(a)), Box::new(gen_type(b))),
        Type::Or(a, b) => Type::Or(Box::new(gen_type(a)), Box::new(gen_type(b))),
        Type::Not(a, b) => Type::Not(Box::new(gen_type(a)), Box::new(gen_type(b))),
        other => type_dup(other),
    }
}

pub fn gen_typaram(p: &TyParam) -> (r: TyParam)
    ensures
        typaram_view(r) == gen_tp(typaram_view(*p)),
    decreases *p,
{
    match p {
        TyParam::FreeVar(f) => {
            let fv: &FreeTyParam = f;
            proof {
                assert(typaram_view(*p) == TyParamV::FreeVar(
                    Box::new(crate::ty::fvtp_view(*fv)),
                ));
            }
            match fv {
                FreeTyParam::Unbound { name, .. } => {
                    proof {
                        assert(crate::ty::fvtp_view(*fv) matches FreeTyParamV::Unbound { .. });
                        assert(crate::ty::fvtp_view(*fv)->Unbound_name == opt_str_view(*name));
                    }
                    match name {
                        Some(n) => TyParam::MonoQVar(n.clone()),
                        None => TyParam::MonoQVar("_".to_owned()),
                    }
                },
                FreeTyParam::Linked(u) => {
                    let inner: &TyParam = u;
                    proof {
                        assert(crate::ty::fvtp_view(*fv) == FreeTyParamV::Linked(
                            Box::new(typaram_view(*inner)),
                        ));
                    }
                    gen_typaram(inner)
                },
            }
        },
        TyParam::Type(t) => TyParam::Type(Box::new(gen_type(t))),
        TyParam::BinOp { op, lhs, rhs } => TyParam::BinOp {
            op: *op,
            lhs: Box::new(gen_typaram(lhs)),
            rhs: Box::new(gen_typaram(rhs)),
        },
        TyParam::UnaryOp { op, val } => TyParam::UnaryOp {
            op: *op,
            val: Box::new(gen_typaram(val)),
        },
        TyParam::Array(args) => TyParam::Array(gen_tps_x(args)),
        TyParam::Tuple(args) => TyParam::Tuple(gen_tps_x(args)),
        TyParam::App { name, args } => TyParam::App { name: name.clone(), args: gen_tps_x(args) },
        TyParam::PolyQVar { name, args } => TyParam::PolyQVar {
            name: name.clone(),
            args: gen_tps_x(args),
        },
        TyParam::MonoProj { obj, attr } => TyParam::MonoProj {
            obj: Box::new(gen_typaram(obj)),
            attr: attr.clone(),
        },
        other => typaram_dup(other),
    }
}

fn gen_pt_x(p: &ParamTy) -> (r: ParamTy)
    ensures
        paramty_view(r) == gen_pt(paramty_view(*p)),
    decreases *p,
{
    ParamTy { name: opt_str_dup(&p.name), t: gen_type(&p.t) }
}

fn gen_pred_x(p: &Predicate) -> (r: Predicate)
    ensures
        pred_view(r) == gen_pred(pred_view(*p)),
    decreases *p,
{
    match p {
        Predicate::Equal { lhs, rhs } => Predicate::Equal {
            lhs: lhs.clone(),
            rhs: gen_typaram(rhs),
        },
        Predicate::NotEqual { lhs, rhs } => Predicate::NotEqual {
            lhs: lhs.clone(),
            rhs: gen_typaram(rhs),
        },
        Predicate::LessEqual { lhs, rhs } => Predicate::LessEqual {
            lhs: lhs.clone(),
            rhs: gen_typaram(rhs),
        },
        Predicate::GreaterEqual { lhs, rhs } => Predicate::GreaterEqual {
            lhs: lhs.clone(),
            rhs: gen_typaram(rhs),
        },
        Predicate::And(a, b) => Predicate::And(
            Box::new(gen_pred_x(a)),
            Box::new(gen_pred_x(b)),
        ),
        Predicate::Or(a, b) => Predicate::Or(Box::new(gen_pred_x(a)), Box::new(gen_pred_x(b))),
        Predicate::Not(a, b) => Predicate::Not(Box::new(gen_pred_x(a)), Box::new(gen_pred_x(b))),
        other => crate::deep::pred_dup(other),
    }
}

#[verifier::loop_isolation(false)]
fn gen_tps_x(v: &Vec<TyParam>) -> (r: Vec<TyParam>)
    ensures
        typarams_view(r@) == gen_tps(typarams_view(v@)),
    decreases v@,
{
    proof {
        lemma_typarams_view(v@);
        lemma_gen_tps(typarams_view(v@));
    }
    let n = v.len();
    let mut out: Vec<TyParam> = Vec::new();
    let mut i: usize = 0;
    while i < n
        invariant
            i <= n,
            n == v@.len(),
            out@.len() == i,
            forall|j: int| 0 <= j < i ==> typaram_view(out@[j]) == gen_tp(typaram_view(v@[j])),
        decreases n - i,
    {
        proof {
            assert(decreases_to!(v@ => v@[i as int]));
        }
        let d = gen_typaram(&v[i]);
        out.push(d);
        i = i + 1;
    }
    proof {
        lemma_typarams_view(out@);
        assert(typarams_view(out@) =~= gen_tps(typarams_view(v@)));
    }
    out
}

#[verifier::loop_isolation(false)]
fn gen_pts_x(v: &Vec<ParamTy>) -> (r: Vec<ParamTy>)
    ensures
        paramtys_view(r@) == gen_pts(paramtys_view(v@)),
    decreases v@,
{
    proof {
        lemma_paramtys_view(v@);
        lemma_gen_pts(paramtys_view(v@));
    }
    let n = v.len();
    let mut out: Vec<ParamTy> = Vec::new();
    let mut i: usize = 0;
    while i < n
        invariant
            i <= n,
            n == v@.len(),
            out@.len() == i,
            forall|j: int| 0 <= j < i ==> paramty_view(out@[j]) == gen_pt(paramty_view(v@[j])),
        decreases n - i,
    {
        proof {
            assert(decreases_to!(v@ => v@[i as int]));
        }
        let d = gen_pt_x(&v[i]);
        out.push(d);
        i = i + 1;
    }
    proof {
        lemma_paramtys_view(out@);
        assert(paramtys_view(out@) =~= gen_pts(paramtys_view(v@)));
    }
    out
}

#[verifier::loop_isolation(false)]
fn gen_preds_x(v: &Vec<Predicate>) -> (r: Vec<Predicate>)
    ensures
        preds_view(r@) == gen_preds(preds_view(v@)),
    decreases v@,
{
    proof {
        lemma_preds_view(v@);
        lemma_gen_preds(preds_view(v@));
    }
    let n = v.len();
    let mut out: Vec<Predicate> = Vec::new();
    let mut i: usize = 0;
    while i < n
        invariant
            i <= n,
            n == v@.len(),
            out@.len() == i,
            forall|j: int| 0 <= j < i ==> pred_view(out@[j]) == gen_pred(pred_view(v@[j])),
        decreases n - i,
    {
        proof {
            assert(decreases_to!(v@ => v@[i as int]));
        }
        let d = gen_pred_x(&v[i]);
        out.push(d);
        i = i + 1;
    }
    proof {
        lemma_preds_view(out@);
        assert(preds_view(out@) =~= gen_preds(preds_view(v@)));
    }
    out
}

#[verifier::loop_isolation(false)]
fn gen_rec_x(v: &Vec<(Field, Type)>) -> (r: Vec<(Field, Type)>)
    ensures
        record_t_view(r@) == gen_rec(record_t_view(v@)),
    decreases v@,
{
    proof {
        lemma_record_t_view(v@);
        lemma_gen_rec(record_t_view(v@));
    }
    let n = v.len();
    let mut out: Vec<(Field, Type)> = Vec::new();
    let mut i: usize = 0;
    while i < n
        invariant
            i <= n,
            n == v@.len(),
            out@.len() == i,
            forall|j: int| 0 <= j < i ==> field_view(out@[j].0) == field_view(v@[j].0)
                && type_view(out@[j].1) == gen_t(type_view(v@[j].1)),
        decreases n - i,
    {
        proof {
            assert(decreases_to!(v@ => v@[i as int]));
            assert(decreases_to!(v@[i as int] => v@[i as int].1));
        }
        let f = field_dup(&v[i].0);
        let d = gen_type(&v[i].1);
        out.push((f, d));
        i = i + 1;
    }
    proof {
        lemma_record_t_view(out@);
        assert(record_t_view(out@) =~= gen_rec(record_t_view(v@)));
    }
    out
}

// ---------------------------------------------------------------------
// The host-facing instantiation operations.
// ---------------------------------------------------------------------

/// The bound a syntactic bound specification denotes.
pub open spec fn bound_spec_v(b: TypeBoundSpec) -> TyBoundV {
    match b.spec {
        TypeSpecAst::Mono(n) => TyBoundV::Instance { name: b.name@, t: ground_of_name(n@) },
    }
}

pub open spec fn bound_specs_v(s: Seq<TypeBoundSpec>) -> Seq<TyBoundV>
    decreases s,
{
    if s.len() == 0 {
        Seq::empty()
    } else {
        bound_specs_v(s.drop_last()).push(bound_spec_v(s.last()))
    }
}

/// The type a parameter signature is given: its annotation's ground
/// type, or a fresh anonymous variable at the given level.
pub open spec fn param_sig_t_v(sig: ParamSig, lv: nat) -> TypeV {
    match sig.t_spec {
        Some(TypeSpecAst::Mono(n)) => ground_of_name(n@),
        None => TypeV::FreeVar(
            Box::new(FreeTyVarV::Unbound { name: None, level: lv, constraint: ConstraintV::Uninited }),
        ),
    }
}

impl Context {
    /// Instantiates a quantified type under the bounds of an
    /// instantiation context: quantified variables become fresh
    /// unbound variables.
    pub fn instantiate_t(
        &self,
        quant_t: Type,
        tv_ctx: &TyVarContext,
        _loc: crate::error::Location,
    ) -> (r: EvalResult<Type>)
        ensures
            r matches Ok(t) && type_view(t) == inst_t(
                type_view(quant_t),
                tv_ctx.level as nat,
                bounds_view(tv_ctx.bounds@),
            ),
    {
        Ok(inst_type(&quant_t, tv_ctx.level, &tv_ctx.bounds))
    }

    /// Generalizes a type: unbound variables become quantified
    /// variables, links are followed.
    pub fn generalize_t(&self, t: Type) -> (r: Type)
        ensures
            type_view(r) == gen_t(type_view(t)),
    {
        gen_type(&t)
    }

    /// Turns the syntactic bounds of a signature into bounds on its
    /// type variables.
    #[verifier::loop_isolation(false)]
    pub fn instantiate_ty_bounds(
        &self,
        specs: &Vec<TypeBoundSpec>,
        _mode: RegistrationMode,
    ) -> (r: EvalResult<Vec<TyBound>>)
        ensures
            r matches Ok(bs) && bounds_view(bs@) == bound_specs_v(specs@),
    {
        proof {
            lemma_bound_specs_v(specs@);
        }
        let n = specs.len();
        let mut out: Vec<TyBound> = Vec::new();
        let mut i: usize = 0;
        while i < n
            invariant
                i <= n,
                n == specs@.len(),
                out@.len() == i,
                forall|j: int| 0 <= j < i ==> bound_view(out@[j]) == bound_spec_v(specs@[j]),
            decreases n - i,
        {
            let b = &specs[i];
            let t = match &b.spec {
                TypeSpecAst::Mono(nm) => ground_name_type(nm.as_str()),
            };
            out.push(TyBound::Instance { name: b.name.clone(), t });
            i = i + 1;
        }
        proof {
            lemma_bounds_view(out@);
            assert(bounds_view(out@) =~= bound_specs_v(specs@));
        }
        Ok(out)
    }

    /// The type of one parameter signature, under an optional
    /// instantiation context.
    pub fn instantiate_param_sig_t(
        &self,
        sig: &ParamSig,
        _opt_decl_t: Option<&Type>,
        tv_ctx: Option<&TyVarContext>,
        _mode: RegistrationMode,
    ) -> (r: EvalResult<Type>)
        ensures
            r matches Ok(t) && type_view(t) == param_sig_t_v(
                *sig,
                match tv_ctx {
                    Some(tv) => tv.level as nat,
                    None => ctx_view(*self).level,
                },
            ),
    {
        let lv: usize = match tv_ctx {
            Some(tv) => tv.level,
            None => self.level,
        };
        match &sig.t_spec {
            Some(spec) => match spec {
                TypeSpecAst::Mono(n) => Ok(ground_name_type(n.as_str())),
            },
            None => {
                let fv = FreeTyVar::Unbound { name: None, level: lv, constraint: Constraint::Uninited };
                proof {
                    assert(crate::ty::fvt_view(fv) == (FreeTyVarV::Unbound {
                        name: None,
                        level: lv as nat,
                        constraint: ConstraintV::Uninited,
                    }));
                }
                Ok(Type::FreeVar(Box::new(fv)))
            },
        }
    }
}

pub proof fn lemma_bound_specs_v(s: Seq<TypeBoundSpec>)
    ensures
        bound_specs_v(s).len() == s.len(),
        forall|i: int| 0 <= i < s.len() ==> bound_specs_v(s)[i] == bound_spec_v(s[i]),
    decreases s,
{
    if s.len() > 0 {
        lemma_bound_specs_v(s.drop_last());
    }
}


} // verus!
