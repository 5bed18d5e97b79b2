//! Structural equality and copying for the value and type families.
//!
//! Equality decides whether two terms have the same mathematical view;
//! duplication produces a term with the same view. A user subroutine is
//! mirrored without its syntax, so two user subroutines are equal when
//! their names and derived types agree.

use vstd::prelude::*;
use crate::ty::{
    Constraint, FreeTyParam, FreeTyVar, ParamTy, Predicate, SubrType, TyBound, TyParam, Type,
    bound_view, bounds_view, constraint_view, fvt_view, fvtp_view, lemma_bounds_view,
    lemma_paramtys_view, lemma_preds_view, lemma_record_t_view, lemma_typarams_view, opt_str_view,
    lemma_types_view, paramty_view, paramtys_view, pred_view, preds_view, record_t_view,
    RefinementType, subrty_view, typaram_view, typarams_view, type_view, types_view,
};
use crate::value::{
    BuiltinConstSubr, ConstSubr, Field, UserConstSubr, Value, constsubr_view, field_view,
    lemma_record_v_view, lemma_values_view, record_v_view, value_view, values_view,
};

verus! {

pub fn field_eq(a: &Field, b: &Field) -> (r: bool)
    ensures
        r == (field_view(*a) == field_view(*b)),
{
    a.vis == b.vis && a.name == b.name
}

pub fn opt_str_eq(a: &Option<String>, b: &Option<String>) -> (r: bool)
    ensures
        r == (opt_str_view(*a) == opt_str_view(*b)),
{
    match a {
        Some(x) => match b {
            Some(y) => *x == *y,
            None => false,
        },
        None => match b {
            Some(_) => false,
            None => true,
        },
    }
}

pub fn type_eq(a: &Type, b: &Type) -> (r: bool)
    ensures
        r == (type_view(*a) == type_view(*b)),
    decreases *a,
{
    match a {
        Type::Obj => matches!(b, Type::Obj),
        Type::Int => matches!(b, Type::Int),
        Type::Nat => matches!(b, Type::Nat),
        Type::Ratio => matches!(b, Type::Ratio),
        Type::Str => matches!(b, Type::Str),
        Type::Bool => matches!(b, Type::Bool),
        Type::NoneType => matches!(b, Type::NoneType),
        Type::NotImplemented => matches!(b, Type::NotImplemented),
        Type::Ellipsis => matches!(b, Type::Ellipsis),
        Type::Inf => matches!(b, Type::Inf),
        Type::Never => matches!(b, Type::Never),
        Type::Type => matches!(b, Type::Type),
        Type::BuiltinMono(n1) => match b {
            Type::BuiltinMono(n2) => *n1 == *n2,
            _ => false,
        },
        Type::Mono { path: p1, name: n1 } => match b {
            Type::Mono { path: p2, name: n2 } => *p1 == *p2 && *n1 == *n2,
            _ => false,
        },
        Type::MonoQVar(n1) => match b {
            Type::MonoQVar(n2) => *n1 == *n2,
            _ => false,
        },
        Type::FreeVar(f1) => match b {
            Type::FreeVar(f2) => fvt_eq(f1, f2),
            _ => false,
        },
        Type::Subr(s1) => match b {
            Type::Subr(s2) => subrty_eq(s1, s2),
            _ => false,
        },
        Type::Refinement(r1) => match b {
            Type::Refinement(r2) => r1.var == r2.var && type_eq(&r1.t, &r2.t) && preds_eq(
                &r1.preds,
                &r2.preds,
            ),
            _ => false,
        },
        Type::Ref(t1) => match b {
            Type::Ref(t2) => type_eq(t1, t2),
            _ => false,
        },
        Type::RefMut { before: b1, after: a1 } => match b {
            Type::RefMut { before: b2, after: a2 } => type_eq(b1, b2) && match a1 {
                Some(x) => match a2 {
                    Some(y) => type_eq(x, y),
                    None => false,
                },
                None => matches!(a2, None),
            },
            _ => false,
        },
        Type::Record(r1) => match b {
            Type::Record(r2) => record_t_eq(r1, r2),
            _ => false,
        },
        Type::BuiltinPoly { name: n1, params: p1 } => match b {
            Type::BuiltinPoly { name: n2, params: p2 } => *n1 == *n2 && typarams_eq(p1, p2),
            _ => false,
        },
        Type::Poly { path: q1, name: n1, params: p1 } => match b {
            Type::Poly { path: q2, name: n2, params: p2 } => *q1 == *q2 && *n1 == *n2 && typarams_eq(
                p1,
                p2,
            ),
            _ => false,
        },
        Type::PolyQVar { name: n1, params: p1 } => match b {
            Type::PolyQVar { name: n2, params: p2 } => *n1 == *n2 && typarams_eq(p1, p2),
            _ => false,
        },
        Type::MonoProj { lhs: l1, rhs: r1 } => match b {
            Type::MonoProj { lhs: l2, rhs: r2 } => type_eq(l1, l2) && *r1 == *r2,
            _ => false,
        },
        Type::And(x1, y1) => match b {
            Type::And(x2, y2) => type_eq(x1, x2) && type_eq(y1, y2),
            _ => false,
        },
        Type::Or(x1, y1) => match b {
            Type::Or(x2, y2) => type_eq(x1, x2) && type_eq(y1, y2),
            _ => false,
        },
        Type::Not(x1, y1) => match b {
            Type::Not(x2, y2) => type_eq(x1, x2) && type_eq(y1, y2),
            _ => false,
        },
        Type::Quantified { unbound: u1, bounds: b1 } => match b {
            Type::Quantified { unbound: u2, bounds: b2 } => type_eq(u1, u2) && bounds_eq(b1, b2),
            _ => false,
        },
    }
}

pub fn constraint_eq(a: &Constraint, b: &Constraint) -> (r: bool)
    ensures
        r == (constraint_view(*a) == constraint_view(*b)),
    decreases *a,
{
    match a {
        Constraint::Sandwiched { sub: s1, sup: u1 } => match b {
            Constraint::Sandwiched { sub: s2, sup: u2 } => type_eq(s1, s2) && type_eq(u1, u2),
            _ => false,
        },
        Constraint::TypeOf(t1) => match b {
            Constraint::TypeOf(t2) => type_eq(t1, t2),
            _ => false,
        },
        Constraint::Uninited => matches!(b, Constraint::Uninited),
    }
}

pub fn fvt_eq(a: &FreeTyVar, b: &FreeTyVar) -> (r: bool)
    ensures
        r == (fvt_view(*a) == fvt_view(*b)),
    decreases *a,
{
    match a {
        FreeTyVar::Unbound { name: n1, level: l1, constraint: c1 } => match b {
            FreeTyVar::Unbound { name: n2, level: l2, constraint: c2 } => opt_str_eq(n1, n2) && l1
                == l2 && constraint_eq(c1, c2),
            _ => false,
        },
        FreeTyVar::Linked(t1) => match b {
            FreeTyVar::Linked(t2) => type_eq(t1, t2),
            _ => false,
        },
    }
}

pub fn fvtp_eq(a: &FreeTyParam, b: &FreeTyParam) -> (r: bool)
    ensures
        r == (fvtp_view(*a) == fvtp_view(*b)),
    decreases *a,
{
    match a {
        FreeTyParam::Unbound { name: n1, level: l1, t: t1 } => match b {
            FreeTyParam::Unbound { name: n2, level: l2, t: t2 } => opt_str_eq(n1, n2) && l1 == l2
                && type_eq(t1, t2),
            _ => false,
        },
        FreeTyParam::Linked(p1) => match b {
            FreeTyParam::Linked(p2) => typaram_eq(p1, p2),
            _ => false,
        },
    }
}

pub fn paramty_eq(a: &ParamTy, b: &ParamTy) -> (r: bool)
    ensures
        r == (paramty_view(*a) == paramty_view(*b)),
    decreases *a,
{
    opt_str_eq(&a.name, &b.name) && type_eq(&a.t, &b.t)
}

pub fn subrty_eq(a: &SubrType, b: &SubrType) -> (r: bool)
    ensures
        r == (subrty_view(*a) == subrty_view(*b)),
    decreases *a,
{
    a.kind == b.kind && paramtys_eq(&a.non_default_params, &b.non_default_params) && (match &a
        .var_params {
        Some(x) => match &b.var_params {
            Some(y) => paramty_eq(x, y),
            None => false,
        },
        None => matches!(&b.var_params, None),
    }) && paramtys_eq(&a.default_params, &b.default_params) && type_eq(&a.return_t, &b.return_t)
}

pub fn bound_eq(a: &TyBound, b: &TyBound) -> (r: bool)
    ensures
        r == (bound_view(*a) == bound_view(*b)),
    decreases *a,
{
    match a {
        TyBound::Sandwiched { sub: s1, mid: m1, sup: u1 } => match b {
            TyBound::Sandwiched { sub: s2, mid: m2, sup: u2 } => type_eq(s1, s2) && type_eq(m1, m2)
                && type_eq(u1, u2),
            _ => false,
        },
        TyBound::Instance { name: n1, t: t1 } => match b {
            TyBound::Instance { name: n2, t: t2 } => *n1 == *n2 && type_eq(t1, t2),
            _ => false,
        },
    }
}

pub fn typaram_eq(a: &TyParam, b: &TyParam) -> (r: bool)
    ensures
        r == (typaram_view(*a) == typaram_view(*b)),
    decreases *a,
{
    match a {
        TyParam::Value(v1) => match b {
            TyParam::Value(v2) => value_eq(v1, v2),
            _ => false,
        },
        TyParam::Type(t1) => match b {
            TyParam::Type(t2) => type_eq(t1, t2),
            _ => false,
        },
        TyParam::FreeVar(f1) => match b {
            TyParam::FreeVar(f2) => fvtp_eq(f1, f2),
            _ => false,
        },
        TyParam::Mono(n1) => match b {
            TyParam::Mono(n2) => *n1 == *n2,
            _ => false,
        },
        TyParam::MonoQVar(n1) => match b {
            TyParam::MonoQVar(n2) => *n1 == *n2,
            _ => false,
        },
        TyParam::Erased(t1) => match b {
            TyParam::Erased(t2) => type_eq(t1, t2),
            _ => false,
        },
        TyParam::BinOp { op: o1, lhs: l1, rhs: r1 } => match b {
            TyParam::BinOp { op: o2, lhs: l2, rhs: r2 } => *o1 == *o2 && typaram_eq(l1, l2)
                && typaram_eq(r1, r2),
            _ => false,
        },
        TyParam::UnaryOp { op: o1, val: v1 } => match b {
            TyParam::UnaryOp { op: o2, val: v2 } => *o1 == *o2 && typaram_eq(v1, v2),
            _ => false,
        },
        TyParam::Array(a1) => match b {
            TyParam::Array(a2) => typarams_eq(a1, a2),
            _ => false,
        },
        TyParam::Tuple(a1) => match b {
            TyParam::Tuple(a2) => typarams_eq(a1, a2),
            _ => false,
        },
        TyParam::App { name: n1, args: a1 } => match b {
            TyParam::App { name: n2, args: a2 } => *n1 == *n2 && typarams_eq(a1, a2),
            _ => false,
        },
        TyParam::PolyQVar { name: n1, args: a1 } => match b {
            TyParam::PolyQVar { name: n2, args: a2 } => *n1 == *n2 && typarams_eq(a1, a2),
            _ => false,
        },
        TyParam::MonoProj { obj: o1, attr: t1 } => match b {
            TyParam::MonoProj { obj: o2, attr: t2 } => typaram_eq(o1, o2) && *t1 == *t2,
            _ => false,
        },
    }
}

pub fn pred_eq(a: &Predicate, b: &Predicate) -> (r: bool)
    ensures
        r == (pred_view(*a) == pred_view(*b)),
    decreases *a,
{
    match a {
        Predicate::Value(v1) => match b {
            Predicate::Value(v2) => value_eq(v1, v2),
            _ => false,
        },
        Predicate::Const(n1) => match b {
            Predicate::Const(n2) => *n1 == *n2,
            _ => false,
        },
        Predicate::Equal { lhs: l1, rhs: r1 } => match b {
            Predicate::Equal { lhs: l2, rhs: r2 } => *l1 == *l2 && typaram_eq(r1, r2),
            _ => false,
        },
        Predicate::NotEqual { lhs: l1, rhs: r1 } => match b {
            Predicate::NotEqual { lhs: l2, rhs: r2 } => *l1 == *l2 && typaram_eq(r1, r2),
            _ => false,
        },
        Predicate::LessEqual { lhs: l1, rhs: r1 } => match b {
            Predicate::LessEqual { lhs: l2, rhs: r2 } => *l1 == *l2 && typaram_eq(r1, r2),
            _ => false,
        },
        Predicate::GreaterEqual { lhs: l1, rhs: r1 } => match b {
            Predicate::GreaterEqual { lhs: l2, rhs: r2 } => *l1 == *l2 && typaram_eq(r1, r2),
            _ => false,
        },
        Predicate::And(x1, y1) => match b {
            Predicate::And(x2, y2) => pred_eq(x1, x2) && pred_eq(y1, y2),
            _ => false,
        },
        Predicate::Or(x1, y1) => match b {
            Predicate::Or(x2, y2) => pred_eq(x1, x2) && pred_eq(y1, y2),
            _ => false,
        },
        Predicate::Not(x1, y1) => match b {
            Predicate::Not(x2, y2) => pred_eq(x1, x2) && pred_eq(y1, y2),
            _ => false,
        },
    }
}

pub fn constsubr_eq(a: &ConstSubr, b: &ConstSubr) -> (r: bool)
    ensures
        r == (constsubr_view(*a) == constsubr_view(*b)),
    decreases *a,
{
    match a {
        ConstSubr::User(u1) => match b {
            ConstSubr::User(u2) => u1.name == u2.name && type_eq(&u1.sig_t, &u2.sig_t) && (
            match &u1.as_type {
                Some(x) => match &u2.as_type {
                    Some(y) => type_eq(x, y),
                    None => false,
                },
                None => matches!(&u2.as_type, None),
            }),
            _ => false,
        },
        ConstSubr::Builtin(b1) => match b {
            ConstSubr::Builtin(b2) => b1.name == b2.name && b1.op == b2.op,
            _ => false,
        },
    }
}

pub fn value_eq(a: &Value, b: &Value) -> (r: bool)
    ensures
        r == (value_view(*a) == value_view(*b)),
    decreases *a,
{
    match a {
        Value::Int(x) => match b {
            Value::Int(y) => *x == *y,
            _ => false,
        },
        Value::Nat(x) => match b {
            Value::Nat(y) => *x == *y,
            _ => false,
        },
        Value::Ratio { num: n1, den: d1 } => match b {
            Value::Ratio { num: n2, den: d2 } => *n1 == *n2 && *d1 == *d2,
            _ => false,
        },
        Value::Str(s1) => match b {
            Value::Str(s2) => *s1 == *s2,
            _ => false,
        },
        Value::Bool(b1) => match b {
            Value::Bool(b2) => *b1 == *b2,
            _ => false,
        },
        Value::NoneVal => matches!(b, Value::NoneVal),
        Value::NotImplemented => matches!(b, Value::NotImplemented),
        Value::Ellipsis => matches!(b, Value::Ellipsis),
        Value::Inf => matches!(b, Value::Inf),
        Value::Array(a1) => match b {
            Value::Array(a2) => values_eq(a1, a2),
            _ => false,
        },
        Value::Record(r1) => match b {
            Value::Record(r2) => record_v_eq(r1, r2),
            _ => false,
        },
        Value::Type(t1) => match b {
            Value::Type(t2) => type_eq(t1, t2),
            _ => false,
        },
        Value::Subr(s1) => match b {
            Value::Subr(s2) => constsubr_eq(s1, s2),
            _ => false,
        },
        Value::Mut(v1) => match b {
            Value::Mut(v2) => value_eq(v1, v2),
            _ => false,
        },
    }
}

#[verifier::loop_isolation(false)]
pub fn typarams_eq(a: &Vec<TyParam>, b: &Vec<TyParam>) -> (r: bool)
    ensures
        r == (typarams_view(a@) == typarams_view(b@)),
    decreases a@,
{
    proof {
        lemma_typarams_view(a@);
        lemma_typarams_view(b@);
    }
    if a.len() != b.len() {
        return false;
    }
    let n = a.len();
    let mut i: usize = 0;
    while i < n
        invariant
            i <= n,
            n == a@.len() && n == b@.len(),
            forall|j: int| 0 <= j < i ==> typaram_view(a@[j]) == typaram_view(b@[j]),
        decreases n - i,
    {
        proof {
            assert(decreases_to!(a@ => a@[i as int]));
        }
        if !typaram_eq(&a[i], &b[i]) {
            proof {
                assert(typarams_view(a@)[i as int] != typarams_view(b@)[i as int]);
            }
            return false;
        }
        i = i + 1;
    }
    proof {
        assert(typarams_view(a@) =~= typarams_view(b@));
    }
    true
}

#[verifier::loop_isolation(false)]
pub fn values_eq(a: &Vec<Value>, b: &Vec<Value>) -> (r: bool)
    ensures
        r == (values_view(a@) == values_view(b@)),
    decreases a@,
{
    proof {
        lemma_values_view(a@);
        lemma_values_view(b@);
    }
    if a.len() != b.len() {
        return false;
    }
    let n = a.len();
    let mut i: usize = 0;
    while i < n
        invariant
            i <= n,
            n == a@.len() && n == b@.len(),
            forall|j: int| 0 <= j < i ==> value_view(a@[j]) == value_view(b@[j]),
        decreases n - i,
    {
        proof {
            assert(decreases_to!(a@ => a@[i as int]));
        }
        if !value_eq(&a[i], &b[i]) {
            proof {
                assert(values_view(a@)[i as int] != values_view(b@)[i as int]);
            }
            return false;
        }
        i = i + 1;
    }
    proof {
        assert(values_view(a@) =~= values_view(b@));
    }
    true
}

#[verifier::loop_isolation(false)]
pub fn record_v_eq(a: &Vec<(Field, Value)>, b: &Vec<(Field, Value)>) -> (r: bool)
    ensures
        r == (record_v_view(a@) == record_v_view(b@)),
    decreases a@,
{
    proof {
        lemma_record_v_view(a@);
        lemma_record_v_view(b@);
    }
    if a.len() != b.len() {
        return false;
    }
    let n = a.len();
    let mut i: usize = 0;
    while i < n
        invariant
            i <= n,
            n == a@.len() && n == b@.len(),
            forall|j: int| 0 <= j < i ==> (field_view(a@[j].0), value_view(a@[j].1)) == (
            field_view(b@[j].0), value_view(b@[j].1)),
        decreases n - i,
    {
        proof {
            assert(decreases_to!(a@ => a@[i as int]));
            assert(decreases_to!(a@[i as int] => a@[i as int].1));
        }
        if !field_eq(&a[i].0, &b[i].0) || !value_eq(&a[i].1, &b[i].1) {
            proof {
                assert(record_v_view(a@)[i as int] != record_v_view(b@)[i as int]);
            }
            return false;
        }
        i = i + 1;
    }
    proof {
        assert(record_v_view(a@) =~= record_v_view(b@));
    }
    true
}

#[verifier::loop_isolation(false)]
pub fn record_t_eq(a: &Vec<(Field, Type)>, b: &Vec<(Field, Type)>) -> (r: bool)
    ensures
        r == (record_t_view(a@) == record_t_view(b@)),
    decreases a@,
{
    proof {
        lemma_record_t_view(a@);
        lemma_record_t_view(b@);
    }
    if a.len() != b.len() {
        return false;
    }
    let n = a.len();
    let mut i: usize = 0;
    while i < n
        invariant
            i <= n,
            n == a@.len() && n == b@.len(),
            forall|j: int| 0 <= j < i ==> (field_view(a@[j].0), type_view(a@[j].1)) == (
            field_view(b@[j].0), type_view(b@[j].1)),
        decreases n - i,
    {
        proof {
            assert(decreases_to!(a@ => a@[i as int]));
            assert(decreases_to!(a@[i as int] => a@[i as int].1));
        }
        if !field_eq(&a[i].0, &b[i].0) || !type_eq(&a[i].1, &b[i].1) {
            proof {
                assert(record_t_view(a@)[i as int] != record_t_view(b@)[i as int]);
            }
            return false;
        }
        i = i + 1;
    }
    proof {
        assert(record_t_view(a@) =~= record_t_view(b@));
    }
    true
}

#[verifier::loop_isolation(false)]
pub fn preds_eq(a: &Vec<Predicate>, b: &Vec<Predicate>) -> (r: bool)
    ensures
        r == (preds_view(a@) == preds_view(b@)),
    decreases a@,
{
    proof {
        lemma_preds_view(a@);
        lemma_preds_view(b@);
    }
    if a.len() != b.len() {
        return false;
    }
    let n = a.len();
    let mut i: usize = 0;
    while i < n
        invariant
            i <= n,
            n == a@.len() && n == b@.len(),
            forall|j: int| 0 <= j < i ==> pred_view(a@[j]) == pred_view(b@[j]),
        decreases n - i,
    {
        proof {
            assert(decreases_to!(a@ => a@[i as int]));
        }
        if !pred_eq(&a[i], &b[i]) {
            proof {
                assert(preds_view(a@)[i as int] != preds_view(b@)[i as int]);
            }
            return false;
        }
        i = i + 1;
    }
    proof {
        assert(preds_view(a@) =~= preds_view(b@));
    }
    true
}

#[verifier::loop_isolation(false)]
pub fn paramtys_eq(a: &Vec<ParamTy>, b: &Vec<ParamTy>) -> (r: bool)
    ensures
        r == (paramtys_view(a@) == paramtys_view(b@)),
    decreases a@,
{
    proof {
        lemma_paramtys_view(a@);
        lemma_paramtys_view(b@);
    }
    if a.len() != b.len() {
        return false;
    }
    let n = a.len();
    let mut i: usize = 0;
    while i < n
        invariant
            i <= n,
            n == a@.len() && n == b@.len(),
            forall|j: int| 0 <= j < i ==> paramty_view(a@[j]) == paramty_view(b@[j]),
        decreases n - i,
    {
        proof {
            assert(decreases_to!(a@ => a@[i as int]));
        }
        if !paramty_eq(&a[i], &b[i]) {
            proof {
                assert(paramtys_view(a@)[i as int] != paramtys_view(b@)[i as int]);
            }
            return false;
        }
        i = i + 1;
    }
    proof {
        assert(paramtys_view(a@) =~= paramtys_view(b@));
    }
    true
}

#[verifier::loop_isolation(false)]
pub fn bounds_eq(a: &Vec<TyBound>, b: &Vec<TyBound>) -> (r: bool)
    ensures
        r == (bounds_view(a@) == bounds_view(b@)),
    decreases a@,
{
    proof {
        lemma_bounds_view(a@);
        lemma_bounds_view(b@);
    }
    if a.len() != b.len() {
        return false;
    }
    let n = a.len();
    let mut i: usize = 0;
    while i < n
        invariant
            i <= n,
            n == a@.len() && n == b@.len(),
            forall|j: int| 0 <= j < i ==> bound_view(a@[j]) == bound_view(b@[j]),
        decreases n - i,
    {
        proof {
            assert(decreases_to!(a@ => a@[i as int]));
        }
        if !bound_eq(&a[i], &b[i]) {
            proof {
                assert(bounds_view(a@)[i as int] != bounds_view(b@)[i as int]);
            }
            return false;
        }
        i = i + 1;
    }
    proof {
        assert(bounds_view(a@) =~= bounds_view(b@));
    }
    true
}


// ---------------------------------------------------------------------
// Duplication.
// ---------------------------------------------------------------------

pub fn field_dup(a: &Field) -> (r: Field)
    ensures
        field_view(r) == field_view(*a),
{
    Field { vis: a.vis, name: a.name.clone() }
}

pub fn opt_str_dup(a: &Option<String>) -> (r: Option<String>)
    ensures
        opt_str_view(r) == opt_str_view(*a),
{
    match a {
        Some(s) => Some(s.clone()),
        None => None,
    }
}

pub fn type_dup(a: &Type) -> (r: Type)
    ensures
        type_view(r) == type_view(*a),
    decreases *a,
{
    match a {
        Type::Obj => Type::Obj,
        Type::Int => Type::Int,
        Type::Nat => Type::Nat,
        Type::Ratio => Type::Ratio,
        Type::Str => Type::Str,
        Type::Bool => Type::Bool,
        Type::NoneType => Type::NoneType,
        Type::NotImplemented => Type::NotImplemented,
        Type::Ellipsis => Type::Ellipsis,
        Type::Inf => Type::Inf,
        Type::Never => Type::Never,
        Type::Type => Type::Type,
        Type::BuiltinMono(n) => Type::BuiltinMono(n.clone()),
        Type::Mono { path, name } => Type::Mono { path: path.clone(), name: name.clone() },
        Type::MonoQVar(n) => Type::MonoQVar(n.clone()),
        Type::FreeVar(f) => Type::FreeVar(Box::new(fvt_dup(f))),
        Type::Subr(s) => Type::Subr(subrty_dup(s)),
        Type::Refinement(rf) => Type::Refinement(
            RefinementType {
                var: rf.var.clone(),
                t: Box::new(type_dup(&rf.t)),
                preds: preds_dup(&rf.preds),
            },
        ),
        Type::Ref(t) => Type::Ref(Box::new(type_dup(t))),
        Type::RefMut { before, after } => Type::RefMut {
            before: Box::new(type_dup(before)),
            after: match after {
                Some(t) => Some(Box::new(type_dup(t))),
                None => None,
            },
        },
        Type::Record(fields) => Type::Record(record_t_dup(fields)),
        Type::BuiltinPoly { name, params } => Type::BuiltinPoly {
            name: name.clone(),
            params: typarams_dup(params),
        },
        Type::Poly { path, name, params } => Type::Poly {
            path: path.clone(),
            name: name.clone(),
            params: typarams_dup(params),
        },
        Type::PolyQVar { name, params } => Type::PolyQVar {
            name: name.clone(),
            params: typarams_dup(params),
        },
        Type::MonoProj { lhs, rhs } => Type::MonoProj {
            lhs: Box::new(type_dup(lhs)),
            rhs: rhs.clone(),
        },
        Type::And(x, y) => Type::And(Box::new(type_dup(x)), Box::new(type_dup(y))),
        Type::Or(x, y) => Type::Or(Box::new(type_dup(x)), Box::new(type_dup(y))),
        Type::Not(x, y) => Type::Not(Box::new(type_dup(x)), Box::new(type_dup(y))),
        Type::Quantified { unbound, bounds } => Type::Quantified {
            unbound: Box::new(type_dup(unbound)),
            bounds: bounds_dup(bounds),
        },
    }
}

pub fn constraint_dup(a: &Constraint) -> (r: Constraint)
    ensures
        constraint_view(r) == constraint_view(*a),
    decreases *a,
{
    match a {
        Constraint::Sandwiched { sub, sup } => Constraint::Sandwiched {
            sub: Box::new(type_dup(sub)),
            sup: Box::new(type_dup(sup)),
        },
        Constraint::TypeOf(t) => Constraint::TypeOf(Box::new(type_dup(t))),
        Constraint::Uninited => Constraint::Uninited,
    }
}

pub fn fvt_dup(a: &FreeTyVar) -> (r: FreeTyVar)
    ensures
        fvt_view(r) == fvt_view(*a),
    decreases *a,
{
    match a {
        FreeTyVar::Unbound { name, level, constraint } => FreeTyVar::Unbound {
            name: opt_str_dup(name),
            level: *level,
            constraint: constraint_dup(constraint),
        },
        FreeTyVar::Linked(t) => FreeTyVar::Linked(Box::new(type_dup(t))),
    }
}

pub fn fvtp_dup(a: &FreeTyParam) -> (r: FreeTyParam)
    ensures
        fvtp_view(r) == fvtp_view(*a),
    decreases *a,
{
    match a {
        FreeTyParam::Unbound { name, level, t } => FreeTyParam::Unbound {
            name: opt_str_dup(name),
            level: *level,
            t: Box::new(type_dup(t)),
        },
        FreeTyParam::Linked(p) => FreeTyParam::Linked(Box::new(typaram_dup(p))),
    }
}

pub fn paramty_dup(a: &ParamTy) -> (r: ParamTy)
    ensures
        paramty_view(r) == paramty_view(*a),
    decreases *a,
{
    ParamTy { name: opt_str_dup(&a.name), t: type_dup(&a.t) }
}

pub fn subrty_dup(a: &SubrType) -> (r: SubrType)
    ensures
        subrty_view(r) == subrty_view(*a),
    decreases *a,
{
    SubrType {
        kind: a.kind,
        non_default_params: paramtys_dup(&a.non_default_params),
        var_params: match &a.var_params {
            Some(p) => Some(Box::new(paramty_dup(p))),
            None => None,
        },
        default_params: paramtys_dup(&a.default_params),
        return_t: Box::new(type_dup(&a.return_t)),
    }
}

pub fn bound_dup(a: &TyBound) -> (r: TyBound)
    ensures
        bound_view(r) == bound_view(*a),
    decreases *a,
{
    match a {
        TyBound::Sandwiched { sub, mid, sup } => TyBound::Sandwiched {
            sub: type_dup(sub),
            mid: type_dup(mid),
            sup: type_dup(sup),
        },
        TyBound::Instance { name, t } => TyBound::Instance { name: name.clone(), t: type_dup(t) },
    }
}

pub fn typaram_dup(a: &TyParam) -> (r: TyParam)
    ensures
        typaram_view(r) == typaram_view(*a),
    decreases *a,
{
    match a {
        TyParam::Value(v) => TyParam::Value(value_dup(v)),
        TyParam::Type(t) => TyParam::Type(Box::new(type_dup(t))),
        TyParam::FreeVar(f) => TyParam::FreeVar(Box::new(fvtp_dup(f))),
        TyParam::Mono(n) => TyParam::Mono(n.clone()),
        TyParam::MonoQVar(n) => TyParam::MonoQVar(n.clone()),
        TyParam::Erased(t) => TyParam::Erased(Box::new(type_dup(t))),
        TyParam::BinOp { op, lhs, rhs } => TyParam::BinOp {
            op: *op,
            lhs: Box::new(typaram_dup(lhs)),
            rhs: Box::new(typaram_dup(rhs)),
        },
        TyParam::UnaryOp { op, val } => TyParam::UnaryOp {
            op: *op,
            val: Box::new(typaram_dup(val)),
        },
        TyParam::Array(args) => TyParam::Array(typarams_dup(args)),
        TyParam::Tuple(args) => TyParam::Tuple(typarams_dup(args)),
        TyParam::App { name, args } => TyParam::App {
            name: name.clone(),
            args: typarams_dup(args),
        },
        TyParam::PolyQVar { name, args } => TyParam::PolyQVar {
            name: name.clone(),
            args: typarams_dup(args),
        },
        TyParam::MonoProj { obj, attr } => TyParam::MonoProj {
            obj: Box::new(typaram_dup(obj)),
            attr: attr.clone(),
        },
    }
}

pub fn pred_dup(a: &Predicate) -> (r: Predicate)
    ensures
        pred_view(r) == pred_view(*a),
    decreases *a,
{
    match a {
        Predicate::Value(v) => Predicate::Value(value_dup(v)),
        Predicate::Const(n) => Predicate::Const(n.clone()),
        Predicate::Equal { lhs, rhs } => Predicate::Equal {
            lhs: lhs.clone(),
            rhs: typaram_dup(rhs),
        },
        Predicate::NotEqual { lhs, rhs } => Predicate::NotEqual {
            lhs: lhs.clone(),
            rhs: typaram_dup(rhs),
        },
        Predicate::LessEqual { lhs, rhs } => Predicate::LessEqual {
            lhs: lhs.clone(),
            rhs: typaram_dup(rhs),
        },
        Predicate::GreaterEqual { lhs, rhs } => Predicate::GreaterEqual {
            lhs: lhs.clone(),
            rhs: typaram_dup(rhs),
        },
        Predicate::And(x, y) => Predicate::And(Box::new(pred_dup(x)), Box::new(pred_dup(y))),
        Predicate::Or(x, y) => Predicate::Or(Box::new(pred_dup(x)), Box::new(pred_dup(y))),
        Predicate::Not(x, y) => Predicate::Not(Box::new(pred_dup(x)), Box::new(pred_dup(y))),
    }
}

pub fn constsubr_dup(a: &ConstSubr) -> (r: ConstSubr)
    ensures
        constsubr_view(r) == constsubr_view(*a),
    decreases *a,
{
    match a {
        ConstSubr::User(u) => ConstSubr::User(
            UserConstSubr {
                name: u.name.clone(),
                params: u.params.clone(),
                block: crate::ast::dup_block(&u.block),
                sig_t: type_dup(&u.sig_t),
                as_type: match &u.as_type {
                    Some(t) => Some(type_dup(t)),
                    None => None,
                },
            },
        ),
        ConstSubr::Builtin(b) => ConstSubr::Builtin(
            BuiltinConstSubr { name: b.name.clone(), op: b.op },
        ),
    }
}

pub fn value_dup(a: &Value) -> (r: Value)
    ensures
        value_view(r) == value_view(*a),
    decreases *a,
{
    match a {
        Value::Int(n) => Value::Int(*n),
        Value::Nat(n) => Value::Nat(*n),
        Value::Ratio { num, den } => Value::Ratio { num: *num, den: *den },
        Value::Str(s) => Value::Str(s.clone()),
        Value::Bool(b) => Value::Bool(*b),
        Value::NoneVal => Value::NoneVal,
        Value::NotImplemented => Value::NotImplemented,
        Value::Ellipsis => Value::Ellipsis,
        Value::Inf => Value::Inf,
        Value::Array(elems) => Value::Array(values_dup(elems)),
        Value::Record(attrs) => Value::Record(record_v_dup(attrs)),
        Value::Type(t) => Value::Type(Box::new(type_dup(t))),
        Value::Subr(s) => Value::Subr(Box::new(constsubr_dup(s))),
        Value::Mut(v) => Value::Mut(Box::new(value_dup(v))),
    }
}

#[verifier::loop_isolation(false)]
pub fn typarams_dup(a: &Vec<TyParam>) -> (r: Vec<TyParam>)
    ensures
        typarams_view(r@) == typarams_view(a@),
    decreases a@,
{
    proof {
        lemma_typarams_view(a@);
    }
    let n = a.len();
    let mut out: Vec<TyParam> = Vec::new();
    let mut i: usize = 0;
    while i < n
        invariant
            i <= n,
            n == a@.len(),
            out@.len() == i,
            forall|j: int| 0 <= j < i ==> typaram_view(out@[j]) == typaram_view(a@[j]),
        decreases n - i,
    {
        proof {
            assert(decreases_to!(a@ => a@[i as int]));
        }
        let d = typaram_dup(&a[i]);
        out.push(d);
        i = i + 1;
    }
    proof {
        lemma_typarams_view(out@);
        assert(typarams_view(out@) =~= typarams_view(a@));
    }
    out
}

#[verifier::loop_isolation(false)]
pub fn types_dup(a: &Vec<Type>) -> (r: Vec<Type>)
    ensures
        types_view(r@) == types_view(a@),
    decreases a@,
{
    proof {
        lemma_types_view(a@);
    }
    let n = a.len();
    let mut out: Vec<Type> = Vec::new();
    let mut i: usize = 0;
    while i < n
        invariant
            i <= n,
            n == a@.len(),
            out@.len() == i,
            forall|j: int| 0 <= j < i ==> type_view(out@[j]) == type_view(a@[j]),
        decreases n - i,
    {
        proof {
            assert(decreases_to!(a@ => a@[i as int]));
        }
        let d = type_dup(&a[i]);
        out.push(d);
        i = i + 1;
    }
    proof {
        lemma_types_view(out@);
        assert(types_view(out@) =~= types_view(a@));
    }
    out
}

#[verifier::loop_isolation(false)]
pub fn preds_dup(a: &Vec<Predicate>) -> (r: Vec<Predicate>)
    ensures
        preds_view(r@) == preds_view(a@),
    decreases a@,
{
    proof {
        lemma_preds_view(a@);
    }
    let n = a.len();
    let mut out: Vec<Predicate> = Vec::new();
    let mut i: usize = 0;
    while i < n
        invariant
            i <= n,
            n == a@.len(),
            out@.len() == i,
            forall|j: int| 0 <= j < i ==> pred_view(out@[j]) == pred_view(a@[j]),
        decreases n - i,
    {
        proof {
            assert(decreases_to!(a@ => a@[i as int]));
        }
        let d = pred_dup(&a[i]);
        out.push(d);
        i = i + 1;
    }
    proof {
        lemma_preds_view(out@);
        assert(preds_view(out@) =~= preds_view(a@));
    }
    out
}

#[verifier::loop_isolation(false)]
pub fn paramtys_dup(a: &Vec<ParamTy>) -> (r: Vec<ParamTy>)
    ensures
        paramtys_view(r@) == paramtys_view(a@),
    decreases a@,
{
    proof {
        lemma_paramtys_view(a@);
    }
    let n = a.len();
    let mut out: Vec<ParamTy> = Vec::new();
    let mut i: usize = 0;
    while i < n
        invariant
            i <= n,
            n == a@.len(),
            out@.len() == i,
            forall|j: int| 0 <= j < i ==> paramty_view(out@[j]) == paramty_view(a@[j]),
        decreases n - i,
    {
        proof {
            assert(decreases_to!(a@ => a@[i as int]));
        }
        let d = paramty_dup(&a[i]);
        out.push(d);
        i = i + 1;
    }
    proof {
        lemma_paramtys_view(out@);
        assert(paramtys_view(out@) =~= paramtys_view(a@));
    }
    out
}

#[verifier::loop_isolation(false)]
pub fn bounds_dup(a: &Vec<TyBound>) -> (r: Vec<TyBound>)
    ensures
        bounds_view(r@) == bounds_view(a@),
    decreases a@,
{
    proof {
        lemma_bounds_view(a@);
    }
    let n = a.len();
    let mut out: Vec<TyBound> = Vec::new();
    let mut i: usize = 0;
    while i < n
        invariant
            i <= n,
            n == a@.len(),
            out@.len() == i,
            forall|j: int| 0 <= j < i ==> bound_view(out@[j]) == bound_view(a@[j]),
        decreases n - i,
    {
        proof {
            assert(decreases_to!(a@ => a@[i as int]));
        }
        let d = bound_dup(&a[i]);
        out.push(d);
        i = i + 1;
    }
    proof {
        lemma_bounds_view(out@);
        assert(bounds_view(out@) =~= bounds_view(a@));
    }
    out
}

#[verifier::loop_isolation(false)]
pub fn values_dup(a: &Vec<Value>) -> (r: Vec<Value>)
    ensures
        values_view(r@) == values_view(a@),
    decreases a@,
{
    proof {
        lemma_values_view(a@);
    }
    let n = a.len();
    let mut out: Vec<Value> = Vec::new();
    let mut i: usize = 0;
    while i < n
        invariant
            i <= n,
            n == a@.len(),
            out@.len() == i,
            forall|j: int| 0 <= j < i ==> value_view(out@[j]) == value_view(a@[j]),
        decreases n - i,
    {
        proof {
            assert(decreases_to!(a@ => a@[i as int]));
        }
        let d = value_dup(&a[i]);
        out.push(d);
        i = i + 1;
    }
    proof {
        lemma_values_view(out@);
        assert(values_view(out@) =~= values_view(a@));
    }
    out
}

#[verifier::loop_isolation(false)]
pub fn record_v_dup(a: &Vec<(Field, Value)>) -> (r: Vec<(Field, Value)>)
    ensures
        record_v_view(r@) == record_v_view(a@),
    decreases a@,
{
    proof {
        lemma_record_v_view(a@);
    }
    let n = a.len();
    let mut out: Vec<(Field, Value)> = Vec::new();
    let mut i: usize = 0;
    while i < n
        invariant
            i <= n,
            n == a@.len(),
            out@.len() == i,
            forall|j: int| 0 <= j < i ==> (field_view(out@[j].0), value_view(out@[j].1)) == (
            field_view(a@[j].0), value_view(a@[j].1)),
        decreases n - i,
    {
        proof {
            assert(decreases_to!(a@ => a@[i as int]));
            assert(decreases_to!(a@[i as int] => a@[i as int].1));
        }
        let f = field_dup(&a[i].0);
        let v = value_dup(&a[i].1);
        out.push((f, v));
        i = i + 1;
    }
    proof {
        lemma_record_v_view(out@);
        assert(record_v_view(out@) =~= record_v_view(a@));
    }
    out
}

#[verifier::loop_isolation(false)]
pub fn record_t_dup(a: &Vec<(Field, Type)>) -> (r: Vec<(Field, Type)>)
    ensures
        record_t_view(r@) == record_t_view(a@),
    decreases a@,
{
    proof {
        lemma_record_t_view(a@);
    }
    let n = a.len();
    let mut out: Vec<(Field, Type)> = Vec::new();
    let mut i: usize = 0;
    while i < n
        invariant
            i <= n,
            n == a@.len(),
            out@.len() == i,
            forall|j: int| 0 <= j < i ==> (field_view(out@[j].0), type_view(out@[j].1)) == (
            field_view(a@[j].0), type_view(a@[j].1)),
        decreases n - i,
    {
        proof {
            assert(decreases_to!(a@ => a@[i as int]));
            assert(decreases_to!(a@[i as int] => a@[i as int].1));
        }
        let f = field_dup(&a[i].0);
        let t = type_dup(&a[i].1);
        out.push((f, t));
        i = i + 1;
    }
    proof {
        lemma_record_t_view(out@);
        assert(record_t_view(out@) =~= record_t_view(a@));
    }
    out
}


/// Decides equality of string slices by their character sequences.
#[verifier::loop_isolation(false)]
pub fn str_eq(a: &str, b: &str) -> (r: bool)
    ensures
        r == (a@ == b@),
{
    let na = a.unicode_len();
    let nb = b.unicode_len();
    if na != nb {
        return false;
    }
    let mut i: usize = 0;
    while i < na
        invariant
            i <= na,
            na == a@.len() && na == b@.len(),
            forall|j: int| 0 <= j < i ==> a@[j] == b@[j],
        decreases na - i,
    {
        if a.get_char(i) != b.get_char(i) {
            return false;
        }
        i = i + 1;
    }
    proof {
        assert(a@ =~= b@);
    }
    true
}

} // verus!
