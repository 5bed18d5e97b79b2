//! The compile-time evaluator: operator dispatch, type-parameter and
//! predicate reduction, and the shallow equality test.
//!
//! Everything here is a partial interpreter over the data model; the
//! contracts tie each operation to a mathematical model stated over the
//! ghost mirrors. Failures carry the kinds the driver distinguishes:
//! an unsupported construct is a feature error, a violated compiler
//! invariant is an unreachable error.

use vstd::prelude::*;
use crate::error::{ErrorKind, EvalError, EvalResult, Location};
use crate::ast::{Literal, TokenKind};
use crate::arith::{try_bin_v, try_unary_v};
use crate::context::{Context, ContextV, ctx_view, rec_consts_get};
use crate::classify::{as_type_v, class_of_v, mutate_v, record_get_v, typarams_v};
use crate::lit::{lit_value_v};
use crate::ty::{
    FreeTyParam, OpKind, Predicate, PredV, TyParam, TyParamV, Type, TypeV, pred_view,
    typaram_view, type_view,
};
use crate::value::{Value, ValueV, value_view};
use crate::deep::{type_dup, type_eq, typaram_dup, value_dup, value_eq};

verus! {

/// Whether a token kind is a literal kind.
pub open spec fn is_lit_kind(k: TokenKind) -> bool {
    k == TokenKind::NatLit || k == TokenKind::IntLit || k == TokenKind::RatioLit || k
        == TokenKind::StrLit || k == TokenKind::BoolLit || k == TokenKind::NoneLit || k
        == TokenKind::NoImplLit || k == TokenKind::EllipsisLit || k == TokenKind::InfLit
}

/// The ground type a literal kind denotes.
pub open spec fn lit_type(k: TokenKind) -> TypeV {
    match k {
        TokenKind::NatLit => TypeV::Nat,
        TokenKind::IntLit => TypeV::Int,
        TokenKind::RatioLit => TypeV::Ratio,
        TokenKind::StrLit => TypeV::Str,
        TokenKind::BoolLit => TypeV::Bool,
        TokenKind::NoneLit => TypeV::NoneType,
        TokenKind::NoImplLit => TypeV::NotImplemented,
        TokenKind::EllipsisLit => TypeV::Ellipsis,
        TokenKind::InfLit => TypeV::Inf,
        _ => TypeV::Obj,
    }
}

/// Well-formedness of a literal: a literal kind whose content parses
/// into the kind's canonical value. The lexer guarantees it.
pub open spec fn lit_ok(l: Literal) -> bool {
    is_lit_kind(l.token.kind) && lit_value_v(lit_type(l.token.kind), l.token.content@) is Some
}

/// The ground type of a literal token kind.
pub fn type_from_token_kind(kind: TokenKind) -> (r: Type)
    requires
        is_lit_kind(kind),
    ensures
        type_view(r) == lit_type(kind),
{
    match kind {
        TokenKind::NatLit => Type::Nat,
        TokenKind::IntLit => Type::Int,
        TokenKind::RatioLit => Type::Ratio,
        TokenKind::StrLit => Type::Str,
        TokenKind::BoolLit => Type::Bool,
        TokenKind::NoneLit => Type::NoneType,
        TokenKind::NoImplLit => Type::NotImplemented,
        TokenKind::EllipsisLit => Type::Ellipsis,
        TokenKind::InfLit => Type::Inf,
        _ => {
            proof {
                assert(false);
            }
            Type::Obj
        },
    }
}

/// The algebraic operator a syntactic operator token denotes, if any.
pub open spec fn op_of_token(k: TokenKind) -> Option<OpKind> {
    match k {
        TokenKind::Plus => Some(OpKind::Add),
        TokenKind::Minus => Some(OpKind::Sub),
        TokenKind::Star => Some(OpKind::Mul),
        TokenKind::Slash => Some(OpKind::Div),
        TokenKind::Pow => Some(OpKind::Pow),
        TokenKind::Mod => Some(OpKind::Mod),
        TokenKind::DblEq => Some(OpKind::Eq),
        TokenKind::NotEq => Some(OpKind::Ne),
        TokenKind::Less => Some(OpKind::Lt),
        TokenKind::Gre => Some(OpKind::Gt),
        TokenKind::LessEq => Some(OpKind::Le),
        TokenKind::GreEq => Some(OpKind::Ge),
        TokenKind::AndOp => Some(OpKind::And),
        TokenKind::OrOp => Some(OpKind::Or),
        TokenKind::BitAnd => Some(OpKind::BitAnd),
        TokenKind::BitXor => Some(OpKind::BitXor),
        TokenKind::BitOr => Some(OpKind::BitOr),
        TokenKind::Shl => Some(OpKind::Shl),
        TokenKind::Shr => Some(OpKind::Shr),
        TokenKind::Mutate => Some(OpKind::Mutate),
        _ => None,
    }
}

/// Maps an operator token to its algebraic operator; an unknown
/// operator token fails rather than silently succeeding.
pub fn try_get_op_kind_from_token(kind: TokenKind) -> (r: EvalResult<OpKind>)
    ensures
        match r {
            Ok(op) => op_of_token(kind) == Some(op),
            Err(e) => op_of_token(kind) is None && e.kind == ErrorKind::Feature,
        },
{
    match op_of_token_x(kind) {
        Some(op) => Ok(op),
        None => Err(
            EvalError::new(ErrorKind::Feature, Location::Unknown, String::new()),
        ),
    }
}

fn op_of_token_x(kind: TokenKind) -> (r: Option<OpKind>)
    ensures
        r == op_of_token(kind),
{
    match kind {
        TokenKind::Plus => Some(OpKind::Add),
        TokenKind::Minus => Some(OpKind::Sub),
        TokenKind::Star => Some(OpKind::Mul),
        TokenKind::Slash => Some(OpKind::Div),
        TokenKind::Pow => Some(OpKind::Pow),
        TokenKind::Mod => Some(OpKind::Mod),
        TokenKind::DblEq => Some(OpKind::Eq),
        TokenKind::NotEq => Some(OpKind::Ne),
        TokenKind::Less => Some(OpKind::Lt),
        TokenKind::Gre => Some(OpKind::Gt),
        TokenKind::LessEq => Some(OpKind::Le),
        TokenKind::GreEq => Some(OpKind::Ge),
        TokenKind::AndOp => Some(OpKind::And),
        TokenKind::OrOp => Some(OpKind::Or),
        TokenKind::BitAnd => Some(OpKind::BitAnd),
        TokenKind::BitXor => Some(OpKind::BitXor),
        TokenKind::BitOr => Some(OpKind::BitOr),
        TokenKind::Shl => Some(OpKind::Shl),
        TokenKind::Shr => Some(OpKind::Shr),
        TokenKind::Mutate => Some(OpKind::Mutate),
        _ => None,
    }
}

/// Evaluates a literal to its canonical value.
pub fn eval_lit(lit: &Literal) -> (r: Value)
    requires
        lit_ok(*lit),
    ensures
        lit_value_v(lit_type(lit.token.kind), lit.token.content@) == Some(value_view(r)),
{
    let t = type_from_token_kind(lit.token.kind);
    match Value::from_str(&t, &lit.token.content) {
        Some(v) => v,
        None => {
            proof {
                assert(false);
            }
            Value::NoneVal
        },
    }
}

// ---------------------------------------------------------------------
// The partial operators, with the evaluator's error policy.
// ---------------------------------------------------------------------

/// Whether the evaluator dispatches this binary operator at all.
pub open spec fn bin_op_supported(op: OpKind) -> bool {
    op == OpKind::Add || op == OpKind::Sub || op == OpKind::Mul || op == OpKind::Div || op
        == OpKind::Gt || op == OpKind::Ge || op == OpKind::Eq || op == OpKind::Ne
}

/// The model of binary evaluation on values: a supported operator
/// applies the partial operation, and a gap there is a compiler
/// invariant violation; an unsupported operator is a feature error.
pub open spec fn spec_eval_bin(op: OpKind, a: ValueV, b: ValueV) -> Result<ValueV, ErrorKind> {
    if bin_op_supported(op) {
        match try_bin_v(op, a, b) {
            Some(v) => Ok(v),
            None => Err(ErrorKind::Unreachable),
        }
    } else {
        Err(ErrorKind::Feature)
    }
}

/// The model of unary evaluation: mutation wraps a fresh cell; the
/// sign and inversion operators are not yet supported.
pub open spec fn spec_eval_unary(op: OpKind, v: ValueV) -> Result<ValueV, ErrorKind> {
    match try_unary_v(op, v) {
        Some(out) => Ok(out),
        None => Err(ErrorKind::Feature),
    }
}

impl Context {
    /// Applies a binary operator to two values.
    pub fn eval_bin(&self, op: OpKind, lhs: Value, rhs: Value) -> (r: EvalResult<Value>)
        ensures
            match r {
                Ok(v) => spec_eval_bin(op, value_view(lhs), value_view(rhs)) == Ok::<
                    _,
                    ErrorKind,
                >(value_view(v)),
                Err(e) => spec_eval_bin(op, value_view(lhs), value_view(rhs)) == Err::<
                    ValueV,
                    _,
                >(e.kind),
            },
    {
        match op {
            OpKind::Add | OpKind::Sub | OpKind::Mul | OpKind::Div | OpKind::Gt | OpKind::Ge
                | OpKind::Eq | OpKind::Ne => match Value::try_bin(op, &lhs, &rhs) {
                Some(v) => Ok(v),
                None => Err(
                    EvalError::new(ErrorKind::Unreachable, Location::Unknown, self.name.clone()),
                ),
            },
            _ => Err(
                EvalError::new(ErrorKind::Feature, Location::Unknown, self.name.clone()),
            ),
        }
    }

    /// Applies a unary operator to a value.
    pub fn eval_unary(&self, op: OpKind, val: Value) -> (r: EvalResult<Value>)
        ensures
            match r {
                Ok(v) => spec_eval_unary(op, value_view(val)) == Ok::<_, ErrorKind>(
                    value_view(v),
                ),
                Err(e) => spec_eval_unary(op, value_view(val)) == Err::<ValueV, _>(e.kind),
            },
    {
        match Value::try_unary(op, val) {
            Some(v) => Ok(v),
            None => Err(
                EvalError::new(ErrorKind::Feature, Location::Unknown, self.name.clone()),
            ),
        }
    }
}

// ---------------------------------------------------------------------
// Reduction of type parameters.
// ---------------------------------------------------------------------

/// The model of binary reduction on type parameters: values combine
/// under the operator, a cell on the left is read and the result
/// re-wrapped in a fresh cell, links are followed, and an erased
/// operand erases the result. Anything else is not yet supported.
pub open spec fn spec_eval_bin_tp(c: ContextV, op: OpKind, l: TyParamV, r: TyParamV) -> Result<
    TyParamV,
    ErrorKind,
>
    decreases l, r,
{
    match (l, r) {
        (TyParamV::Value(ValueV::Mut(li)), TyParamV::Value(rv)) => match spec_eval_bin(
            op,
            *li,
            rv,
        ) {
            Ok(v) => Ok(TyParamV::Value(ValueV::Mut(Box::new(v)))),
            Err(e) => Err(e),
        },
        (TyParamV::Value(lv), TyParamV::Value(rv)) => match spec_eval_bin(op, lv, rv) {
            Ok(v) => Ok(TyParamV::Value(v)),
            Err(e) => Err(e),
        },
        (TyParamV::FreeVar(f), _) => match *f {
            crate::ty::FreeTyParamV::Linked(u) => spec_eval_bin_tp(c, op, *u, r),
            _ => Err(ErrorKind::Unreachable),
        },
        (_, TyParamV::FreeVar(f)) => match *f {
            crate::ty::FreeTyParamV::Linked(u) => spec_eval_bin_tp(c, op, l, *u),
            _ => Err(ErrorKind::Unreachable),
        },
        (TyParamV::Erased(_), _) => Ok(l),
        (_, TyParamV::Erased(_)) => Ok(r),
        _ => Err(ErrorKind::Feature),
    }
}

/// The model of unary reduction on type parameters.
pub open spec fn spec_eval_unary_tp(c: ContextV, op: OpKind, v: TyParamV) -> Result<
    TyParamV,
    ErrorKind,
>
    decreases v,
{
    match v {
        TyParamV::Value(cv) => match spec_eval_unary(op, cv) {
            Ok(out) => Ok(TyParamV::Value(out)),
            Err(e) => Err(e),
        },
        TyParamV::FreeVar(f) => match *f {
            crate::ty::FreeTyParamV::Linked(u) => spec_eval_unary_tp(c, op, *u),
            _ => Err(ErrorKind::Feature),
        },
        TyParamV::Erased(_) => Ok(v),
        _ => Err(ErrorKind::Feature),
    }
}

/// The model of type-parameter reduction: links are followed, constant
/// names resolve to their values, lifted operators apply, erased
/// placeholders and the identity shapes pass through, and the rest is
/// not yet supported.
pub open spec fn spec_eval_tp(c: ContextV, p: TyParamV) -> Result<TyParamV, ErrorKind>
    decreases p,
{
    match p {
        TyParamV::FreeVar(f) => match *f {
            crate::ty::FreeTyParamV::Linked(u) => spec_eval_tp(c, *u),
            _ => Ok(p),
        },
        TyParamV::Mono(n) => match rec_consts_get(c, n) {
            Some(v) => Ok(TyParamV::Value(v)),
            None => Err(ErrorKind::Unreachable),
        },
        TyParamV::BinOp { op, lhs, rhs } => spec_eval_bin_tp(c, op, *lhs, *rhs),
        TyParamV::UnaryOp { op, val } => spec_eval_unary_tp(c, op, *val),
        TyParamV::App { .. } => Err(ErrorKind::Feature),
        TyParamV::Type(_) => Ok(p),
        TyParamV::Erased(_) => Ok(p),
        TyParamV::Value(_) => Ok(p),
        TyParamV::MonoQVar(_) => Ok(p),
        _ => Err(ErrorKind::Feature),
    }
}

impl Context {
    /// Reduces a lifted binary operator over type parameters.
    pub fn eval_bin_tp(&self, op: OpKind, lhs: &TyParam, rhs: &TyParam) -> (r: EvalResult<TyParam>)
        ensures
            match r {
                Ok(q) => spec_eval_bin_tp(ctx_view(*self), op, typaram_view(*lhs), typaram_view(*rhs))
                    == Ok::<_, ErrorKind>(typaram_view(q)),
                Err(e) => spec_eval_bin_tp(
                    ctx_view(*self),
                    op,
                    typaram_view(*lhs),
                    typaram_view(*rhs),
                ) == Err::<TyParamV, _>(e.kind),
            },
        decreases *lhs, *rhs,
    {
        if let TyParam::Value(lv) = lhs {
            if let Value::Mut(li) = lv {
                if let TyParam::Value(rv) = rhs {
                    let inner: &Value = li;
                    proof {
                        assert(typaram_view(*lhs) == TyParamV::Value(value_view(*lv)));
                        assert(value_view(*lv) == ValueV::Mut(Box::new(value_view(*inner))));
                        assert(typaram_view(*rhs) == TyParamV::Value(value_view(*rv)));
                    }
                    let l2 = value_dup(inner);
                    let r2 = value_dup(rv);
                    return match self.eval_bin(op, l2, r2) {
                        Ok(v) => {
                            let ghost vv = value_view(v);
                            let cell = Value::Mut(Box::new(v));
                            proof {
                                assert(value_view(cell) == ValueV::Mut(Box::new(vv)));
                            }
                            let out = TyParam::Value(cell);
                            proof {
                                assert(typaram_view(out) == TyParamV::Value(ValueV::Mut(
                                    Box::new(vv),
                                )));
                            }
                            Ok(out)
                        },
                        Err(e) => Err(e),
                    };
                }
            }
        }
        if let (TyParam::Value(lv), TyParam::Value(rv)) = (lhs, rhs) {
            proof {
                assert(typaram_view(*lhs) == TyParamV::Value(value_view(*lv)));
                assert(typaram_view(*rhs) == TyParamV::Value(value_view(*rv)));
                assert(!(value_view(*lv) is Mut));
            }
            let l2 = value_dup(lv);
            let r2 = value_dup(rv);
            return match self.eval_bin(op, l2, r2) {
                Ok(v) => Ok(TyParam::Value(v)),
                Err(e) => Err(e),
            };
        }
        if let TyParam::FreeVar(f) = lhs {
            let fv: &FreeTyParam = f;
            proof {
                assert(typaram_view(*lhs) == TyParamV::FreeVar(
                    Box::new(crate::ty::fvtp_view(*fv)),
                ));
            }
            return match fv {
                FreeTyParam::Linked(u) => {
                    let inner: &TyParam = u;
                    proof {
                        assert(crate::ty::fvtp_view(*fv) == crate::ty::FreeTyParamV::Linked(
                            Box::new(typaram_view(*inner)),
                        ));
                    }
                    self.eval_bin_tp(op, inner, rhs)
                },
                _ => Err(
                    EvalError::new(ErrorKind::Unreachable, Location::Unknown, self.name.clone()),
                ),
            };
        }
        if let TyParam::FreeVar(f) = rhs {
            let fv: &FreeTyParam = f;
            proof {
                assert(typaram_view(*rhs) == TyParamV::FreeVar(
                    Box::new(crate::ty::fvtp_view(*fv)),
                ));
            }
            return match fv {
                FreeTyParam::Linked(u) => {
                    let inner: &TyParam = u;
                    proof {
                        assert(crate::ty::fvtp_view(*fv) == crate::ty::FreeTyParamV::Linked(
                            Box::new(typaram_view(*inner)),
                        ));
                    }
                    self.eval_bin_tp(op, lhs, inner)
                },
                _ => Err(
                    EvalError::new(ErrorKind::Unreachable, Location::Unknown, self.name.clone()),
                ),
            };
        }
        if matches!(lhs, TyParam::Erased(_)) {
            return Ok(typaram_dup(lhs));
        }
        if matches!(rhs, TyParam::Erased(_)) {
            return Ok(typaram_dup(rhs));
        }
        Err(EvalError::new(ErrorKind::Feature, Location::Unknown, self.name.clone()))
    }

    /// Reduces a lifted unary operator over a type parameter.
    pub fn eval_unary_tp(&self, op: OpKind, val: &TyParam) -> (r: EvalResult<TyParam>)
        ensures
            match r {
                Ok(q) => spec_eval_unary_tp(ctx_view(*self), op, typaram_view(*val)) == Ok::<
                    _,
                    ErrorKind,
                >(typaram_view(q)),
                Err(e) => spec_eval_unary_tp(ctx_view(*self), op, typaram_view(*val)) == Err::<
                    TyParamV,
                    _,
                >(e.kind),
            },
        decreases *val,
    {
        match val {
            TyParam::Value(cv) => {
                let c2 = value_dup(cv);
                match self.eval_unary(op, c2) {
                    Ok(v) => Ok(TyParam::Value(v)),
                    Err(e) => Err(e),
                }
            },
            TyParam::FreeVar(f) => {
                let fv: &FreeTyParam = f;
                proof {
                    assert(typaram_view(*val) == TyParamV::FreeVar(
                        Box::new(crate::ty::fvtp_view(*fv)),
                    ));
                }
                match fv {
                    FreeTyParam::Linked(u) => {
                        let inner: &TyParam = u;
                        proof {
                            assert(crate::ty::fvtp_view(*fv) == crate::ty::FreeTyParamV::Linked(
                                Box::new(typaram_view(*inner)),
                            ));
                        }
                        self.eval_unary_tp(op, inner)
                    },
                    _ => Err(
                        EvalError::new(ErrorKind::Feature, Location::Unknown, self.name.clone()),
                    ),
                }
            },
            TyParam::Erased(_) => Ok(typaram_dup(val)),
            _ => Err(
                EvalError::new(ErrorKind::Feature, Location::Unknown, self.name.clone()),
            ),
        }
    }

    /// Reduces a type parameter.
    pub fn eval_tp(&self, p: &TyParam) -> (r: EvalResult<TyParam>)
        ensures
            match r {
                Ok(q) => spec_eval_tp(ctx_view(*self), typaram_view(*p)) == Ok::<_, ErrorKind>(
                    typaram_view(q),
                ),
                Err(e) => spec_eval_tp(ctx_view(*self), typaram_view(*p)) == Err::<
                    TyParamV,
                    _,
                >(e.kind),
            },
        decreases *p,
    {
        match p {
            TyParam::FreeVar(f) => {
                let fv: &FreeTyParam = f;
                proof {
                    assert(typaram_view(*p) == TyParamV::FreeVar(
                        Box::new(crate::ty::fvtp_view(*fv)),
                    ));
                }
                match fv {
                    FreeTyParam::Linked(u) => {
                        let inner: &TyParam = u;
                        proof {
                            assert(crate::ty::fvtp_view(*fv) == crate::ty::FreeTyParamV::Linked(
                                Box::new(typaram_view(*inner)),
                            ));
                        }
                        self.eval_tp(inner)
                    },
                    _ => Ok(typaram_dup(p)),
                }
            },
            TyParam::Mono(n) => match self.rec_get_const_obj(n.as_str()) {
                Some(v) => Ok(TyParam::Value(v)),
                None => Err(
                    EvalError::new(ErrorKind::Unreachable, Location::Unknown, self.name.clone()),
                ),
            },
            TyParam::BinOp { op, lhs, rhs } => self.eval_bin_tp(*op, lhs, rhs),
            TyParam::UnaryOp { op, val } => self.eval_unary_tp(*op, val),
            TyParam::App { .. } => Err(
                EvalError::new(ErrorKind::Feature, Location::Unknown, self.name.clone()),
            ),
            TyParam::Type(_) => Ok(typaram_dup(p)),
            TyParam::Erased(_) => Ok(typaram_dup(p)),
            TyParam::Value(_) => Ok(typaram_dup(p)),
            TyParam::MonoQVar(_) => Ok(typaram_dup(p)),
            _ => Err(
                EvalError::new(ErrorKind::Feature, Location::Unknown, self.name.clone()),
            ),
        }
    }
}

// ---------------------------------------------------------------------
// Reduction of predicates.
// ---------------------------------------------------------------------

/// The model of predicate reduction: leaves pass through, comparisons
/// reduce their right side, connectives recurse into both arms. All
/// branches are total up to the reduction of the right sides.
pub open spec fn spec_eval_pred(c: ContextV, p: PredV) -> Result<PredV, ErrorKind>
    decreases p,
{
    match p {
        PredV::Value(_) => Ok(p),
        PredV::Const(_) => Ok(p),
        PredV::Equal { lhs, rhs } => match spec_eval_tp(c, rhs) {
            Ok(q) => Ok(PredV::Equal { lhs, rhs: q }),
            Err(e) => Err(e),
        },
        PredV::NotEqual { lhs, rhs } => match spec_eval_tp(c, rhs) {
            Ok(q) => Ok(PredV::NotEqual { lhs, rhs: q }),
            Err(e) => Err(e),
        },
        PredV::LessEqual { lhs, rhs } => match spec_eval_tp(c, rhs) {
            Ok(q) => Ok(PredV::LessEqual { lhs, rhs: q }),
            Err(e) => Err(e),
        },
        PredV::GreaterEqual { lhs, rhs } => match spec_eval_tp(c, rhs) {
            Ok(q) => Ok(PredV::GreaterEqual { lhs, rhs: q }),
            Err(e) => Err(e),
        },
        PredV::And(a, b) => match (spec_eval_pred(c, *a), spec_eval_pred(c, *b)) {
            (Ok(x), Ok(y)) => Ok(PredV::And(Box::new(x), Box::new(y))),
            (Err(e), _) => Err(e),
            (_, Err(e)) => Err(e),
        },
        PredV::Or(a, b) => match (spec_eval_pred(c, *a), spec_eval_pred(c, *b)) {
            (Ok(x), Ok(y)) => Ok(PredV::Or(Box::new(x), Box::new(y))),
            (Err(e), _) => Err(e),
            (_, Err(e)) => Err(e),
        },
        PredV::Not(a, b) => match (spec_eval_pred(c, *a), spec_eval_pred(c, *b)) {
            (Ok(x), Ok(y)) => Ok(PredV::Not(Box::new(x), Box::new(y))),
            (Err(e), _) => Err(e),
            (_, Err(e)) => Err(e),
        },
    }
}

impl Context {
    /// Reduces a predicate.
    pub fn eval_pred(&self, p: &Predicate) -> (r: EvalResult<Predicate>)
        ensures
            match r {
                Ok(q) => spec_eval_pred(ctx_view(*self), pred_view(*p)) == Ok::<_, ErrorKind>(
                    pred_view(q),
                ),
                Err(e) => spec_eval_pred(ctx_view(*self), pred_view(*p)) == Err::<PredV, _>(
                    e.kind,
                ),
            },
        decreases *p,
    {
        match p {
            Predicate::Value(_) => Ok(crate::deep::pred_dup(p)),
            Predicate::Const(_) => Ok(crate::deep::pred_dup(p)),
            Predicate::Equal { lhs, rhs } => {
                let q = self.eval_tp(rhs)?;
                Ok(Predicate::Equal { lhs: lhs.clone(), rhs: q })
            },
            Predicate::NotEqual { lhs, rhs } => {
                let q = self.eval_tp(rhs)?;
                Ok(Predicate::NotEqual { lhs: lhs.clone(), rhs: q })
            },
            Predicate::LessEqual { lhs, rhs } => {
                let q = self.eval_tp(rhs)?;
                Ok(Predicate::LessEqual { lhs: lhs.clone(), rhs: q })
            },
            Predicate::GreaterEqual { lhs, rhs } => {
                let q = self.eval_tp(rhs)?;
                Ok(Predicate::GreaterEqual { lhs: lhs.clone(), rhs: q })
            },
            Predicate::And(a, b) => {
                let x = self.eval_pred(a)?;
                let y = self.eval_pred(b)?;
                Ok(Predicate::And(Box::new(x), Box::new(y)))
            },
            Predicate::Or(a, b) => {
                let x = self.eval_pred(a)?;
                let y = self.eval_pred(b)?;
                Ok(Predicate::Or(Box::new(x), Box::new(y)))
            },
            Predicate::Not(a, b) => {
                let x = self.eval_pred(a)?;
                let y = self.eval_pred(b)?;
                Ok(Predicate::Not(Box::new(x), Box::new(y)))
            },
        }
    }
}


// ---------------------------------------------------------------------
// Reduction of types.
// ---------------------------------------------------------------------

/// Follows links until an unlinked type remains.
pub open spec fn follow_t(t: TypeV) -> TypeV
    decreases t,
{
    match t {
        TypeV::FreeVar(f) => match *f {
            crate::ty::FreeTyVarV::Linked(u) => follow_t(*u),
            _ => t,
        },
        _ => t,
    }
}

/// A followed term is not linked at its head.
proof fn lemma_follow_not_linked(t: TypeV)
    ensures
        !(follow_t(t) matches TypeV::FreeVar(f) && *f is Linked),
    decreases t,
{
    match t {
        TypeV::FreeVar(f) => match *f {
            crate::ty::FreeTyVarV::Linked(u) => {
                lemma_follow_not_linked(*u);
            },
            _ => {},
        },
        _ => {},
    }
}

/// Follows links, executably; the result is a fresh term.
pub fn follow_type(t: &Type) -> (r: Type)
    ensures
        type_view(r) == follow_t(type_view(*t)),
    decreases *t,
{
    match t {
        Type::FreeVar(f) => {
            let fv: &crate::ty::FreeTyVar = f;
            proof {
                assert(type_view(*t) == TypeV::FreeVar(Box::new(crate::ty::fvt_view(*fv))));
            }
            match fv {
                crate::ty::FreeTyVar::Linked(u) => {
                    let inner: &Type = u;
                    proof {
                        assert(crate::ty::fvt_view(*fv) == crate::ty::FreeTyVarV::Linked(
                            Box::new(type_view(*inner)),
                        ));
                    }
                    follow_type(inner)
                },
                _ => type_dup(t),
            }
        },
        _ => type_dup(t),
    }
}

/// The first candidate of one method-table list: a trait impl applies
/// only when its trait is a super type of the filter (the subject's
/// upper bound if it was a variable, the subject itself if not).
pub open spec fn find_proj_methods(
    c: ContextV,
    ms: Seq<(crate::context::ClassDefTypeV, ContextV)>,
    rhs: Seq<char>,
    sub: TypeV,
    opt_sup: Option<TypeV>,
) -> Option<ValueV>
    decreases ms.len(),
{
    if ms.len() == 0 {
        None
    } else {
        let admitted = match ms[0].0 {
            crate::context::ClassDefTypeV::ImplTrait { impl_trait, .. } => match opt_sup {
                Some(sup) => crate::context::supertype_of_v(c, impl_trait, sup),
                None => crate::context::supertype_of_v(c, impl_trait, sub),
            },
            _ => true,
        };
        if admitted {
            match crate::context::consts_get(ms[0].1.consts, rhs) {
                Some(v) => Some(v),
                None => find_proj_methods(c, ms.drop_first(), rhs, sub, opt_sup),
            }
        } else {
            find_proj_methods(c, ms.drop_first(), rhs, sub, opt_sup)
        }
    }
}

/// The first candidate across the super-type chain: each scope's own
/// consts are consulted before its method tables; the first match, in
/// declaration order, wins.
pub open spec fn find_proj(
    c: ContextV,
    entries: Seq<crate::context::NominalEntryV>,
    rhs: Seq<char>,
    sub: TypeV,
    opt_sup: Option<TypeV>,
) -> Option<(ValueV, crate::context::NominalEntryV, bool)>
    decreases entries.len(),
{
    if entries.len() == 0 {
        None
    } else {
        match crate::context::consts_get(entries[0].ctx.consts, rhs) {
            Some(v) => Some((v, entries[0], false)),
            None => match find_proj_methods(c, entries[0].ctx.methods_list, rhs, sub, opt_sup) {
                Some(v) => Some((v, entries[0], true)),
                None => find_proj(c, entries.drop_first(), rhs, sub, opt_sup),
            },
        }
    }
}

/// Reduction of a sequence of type parameters, failing on the first
/// parameter that does not reduce.
pub open spec fn etp_tps(c: ContextV, s: Seq<TyParamV>) -> Result<Seq<TyParamV>, ErrorKind>
    decreases s,
{
    if s.len() == 0 {
        Ok(Seq::empty())
    } else {
        match (etp_tps(c, s.drop_last()), spec_eval_tp(c, s.last())) {
            (Ok(rest), Ok(last)) => Ok(rest.push(last)),
            (Err(e), _) => Err(e),
            (_, Err(e)) => Err(e),
        }
    }
}

/// Inserting a predicate into a set of predicates keeps one copy.
pub open spec fn preds_insert(s: Seq<PredV>, p: PredV) -> Seq<PredV> {
    if exists|j: int| 0 <= j < s.len() && s[j] == p {
        s
    } else {
        s.push(p)
    }
}

/// Reduction of refinement predicates, collected as a set.
pub open spec fn etp_preds(c: ContextV, s: Seq<PredV>) -> Result<Seq<PredV>, ErrorKind>
    decreases s,
{
    if s.len() == 0 {
        Ok(Seq::empty())
    } else {
        match (etp_preds(c, s.drop_last()), spec_eval_pred(c, s.last())) {
            (Ok(rest), Ok(last)) => Ok(preds_insert(rest, last)),
            (Err(e), _) => Err(e),
            (_, Err(e)) => Err(e),
        }
    }
}

/// The model of type reduction. Projections resolve against the
/// nominal hierarchy: the subject is the followed left-hand side, or
/// its lower bound if it is an unbound variable (remembering the upper
/// bound as the impl filter); a bottom subject leaves the projection
/// unchanged; the first matching candidate is substituted and reduced
/// further, under a recursion budget that detects non-terminating
/// projection chains and fails rather than diverging.
pub open spec fn spec_eval_t_params(c: ContextV, t: TypeV, fuel: nat) -> Result<TypeV, ErrorKind>
    decreases fuel, t,
{
    match t {
        TypeV::FreeVar(f) => match *f {
            crate::ty::FreeTyVarV::Linked(u) => spec_eval_t_params(c, *u, fuel),
            _ => Ok(t),
        },
        TypeV::Subr(s) => {
            let nd = etp_pts(c, s.non_default_params, fuel);
            let vpr: Result<Option<Box<crate::ty::ParamTyV>>, ErrorKind> = match s.var_params {
                Some(p) => match spec_eval_t_params(c, (*p).t, fuel) {
                    Ok(t2) => Ok(
                        Some(Box::new(crate::ty::ParamTyV { name: (*p).name, t: t2 })),
                    ),
                    Err(e) => Err(e),
                },
                None => Ok(None),
            };
            let dp = etp_pts(c, s.default_params, fuel);
            let rt = spec_eval_t_params(c, *s.return_t, fuel);
            match (nd, vpr, dp, rt) {
                (Ok(nd2), Ok(vp2), Ok(dp2), Ok(rt2)) => Ok(
                    TypeV::Subr(
                        crate::ty::SubrTypeV {
                            kind: s.kind,
                            non_default_params: nd2,
                            var_params: vp2,
                            default_params: dp2,
                            return_t: Box::new(rt2),
                        },
                    ),
                ),
                (Err(e), _, _, _) => Err(e),
                (_, Err(e), _, _) => Err(e),
                (_, _, Err(e), _) => Err(e),
                (_, _, _, Err(e)) => Err(e),
            }
        },
        TypeV::Refinement(rf) => match (spec_eval_t_params(c, *rf.t, fuel), etp_preds(c, rf.preds)) {
            (Ok(t2), Ok(ps)) => Ok(
                TypeV::Refinement(
                    crate::ty::RefinementV { var: rf.var, t: Box::new(t2), preds: ps },
                ),
            ),
            (Err(e), _) => Err(e),
            (_, Err(e)) => Err(e),
        },
        TypeV::MonoProj { lhs, rhs } => {
            match proj_subsup(*lhs) {
                Err(e) => Err(e),
                Ok((sub, opt_sup)) => {
                    if sub is Never {
                        Ok(t)
                    } else {
                        match crate::context::super_chain(c, sub) {
                            None => Err(ErrorKind::NoVar),
                            Some(entries) => match find_proj(c, entries, rhs, sub, opt_sup) {
                                None => Err(ErrorKind::NoCandidate),
                                Some((v, entry, via_methods)) => {
                                    if !(v is Type) {
                                        Err(ErrorKind::Feature)
                                    } else {
                                        let quant = *v->Type_0;
                                        let subject = if via_methods {
                                            *lhs
                                        } else {
                                            sub
                                        };
                                        if entry.ctx.params.len() != typarams_v(subject).len() {
                                            Err(ErrorKind::Unreachable)
                                        } else {
                                            let sc = crate::subst::SubstContextV {
                                                bounds: entry.ctx.bounds,
                                                params: crate::subst::zip_params(
                                                    entry.ctx.params,
                                                    typarams_v(subject),
                                                ),
                                            };
                                            match crate::subst::subst_apply(sc, c.level, quant) {
                                                Err(e) => Err(e),
                                                Ok(t2) => if fuel == 0 {
                                                    Err(ErrorKind::Feature)
                                                } else {
                                                    spec_eval_t_params(c, t2, (fuel - 1) as nat)
                                                },
                                            }
                                        }
                                    }
                                },
                            },
                        }
                    }
                },
            }
        },
        TypeV::Ref(u) => match spec_eval_t_params(c, *u, fuel) {
            Ok(x) => Ok(TypeV::Ref(Box::new(x))),
            Err(e) => Err(e),
        },
        TypeV::RefMut { before, after } => {
            let ar: Result<Option<Box<TypeV>>, ErrorKind> = match after {
                Some(a) => match spec_eval_t_params(c, *a, fuel) {
                    Ok(x) => Ok(Some(Box::new(x))),
                    Err(e) => Err(e),
                },
                None => Ok(None),
            };
            match (spec_eval_t_params(c, *before, fuel), ar) {
                (Ok(b2), Ok(a2)) => Ok(TypeV::RefMut { before: Box::new(b2), after: a2 }),
                (Err(e), _) => Err(e),
                (_, Err(e)) => Err(e),
            }
        },
        TypeV::BuiltinPoly { name, params } => match etp_tps(c, params) {
            Ok(a) => Ok(TypeV::BuiltinPoly { name, params: a }),
            Err(e) => Err(e),
        },
        TypeV::Poly { path, name, params } => match etp_tps(c, params) {
            Ok(a) => Ok(TypeV::Poly { path, name, params: a }),
            Err(e) => Err(e),
        },
        TypeV::And(a, b) => match (spec_eval_t_params(c, *a, fuel), spec_eval_t_params(
            c,
            *b,
            fuel,
        )) {
            (Ok(x), Ok(y)) => Ok(TypeV::And(Box::new(x), Box::new(y))),
            (Err(e), _) => Err(e),
            (_, Err(e)) => Err(e),
        },
        TypeV::Or(a, b) => match (spec_eval_t_params(c, *a, fuel), spec_eval_t_params(
            c,
            *b,
            fuel,
        )) {
            (Ok(x), Ok(y)) => Ok(TypeV::Or(Box::new(x), Box::new(y))),
            (Err(e), _) => Err(e),
            (_, Err(e)) => Err(e),
        },
        TypeV::Not(a, b) => match (spec_eval_t_params(c, *a, fuel), spec_eval_t_params(
            c,
            *b,
            fuel,
        )) {
            (Ok(x), Ok(y)) => Ok(TypeV::Not(Box::new(x), Box::new(y))),
            (Err(e), _) => Err(e),
            (_, Err(e)) => Err(e),
        },
        other => if typarams_v(other).len() == 0 {
            Ok(other)
        } else {
            Err(ErrorKind::Feature)
        },
    }
}

/// The effective subject of a projection and the impl filter: the
/// followed left-hand side, or, for an unbound variable, its lower
/// bound with the upper bound remembered as the filter; an unbound
/// variable without bounds is a compiler invariant violation.
pub open spec fn proj_subsup(lhs: TypeV) -> Result<(TypeV, Option<TypeV>), ErrorKind> {
    let sub0 = follow_t(lhs);
    match sub0 {
        TypeV::FreeVar(f) => match *f {
            crate::ty::FreeTyVarV::Unbound { constraint, .. } => match constraint {
                crate::ty::ConstraintV::Sandwiched { sub, sup } => Ok((*sub, Some(*sup))),
                _ => Err(ErrorKind::Unreachable),
            },
            _ => Ok((sub0, None)),
        },
        _ => Ok((sub0, None)),
    }
}

/// Reduction of a parameter row of a subroutine type.
pub open spec fn etp_pts(c: ContextV, s: Seq<crate::ty::ParamTyV>, fuel: nat) -> Result<
    Seq<crate::ty::ParamTyV>,
    ErrorKind,
>
    decreases fuel, s,
{
    if s.len() == 0 {
        Ok(Seq::empty())
    } else {
        match (etp_pts(c, s.drop_last(), fuel), spec_eval_t_params(c, s.last().t, fuel)) {
            (Ok(rest), Ok(last)) => Ok(
                rest.push(crate::ty::ParamTyV { name: s.last().name, t: last }),
            ),
            (Err(e), _) => Err(e),
            (_, Err(e)) => Err(e),
        }
    }
}

/// The recursion budget for chained projection resolutions.
pub const PROJ_FUEL: u64 = 64;


// ---------------------------------------------------------------------
// Executable type reduction.
// ---------------------------------------------------------------------

impl Context {
    /// The first candidate of one method-table list.
    #[verifier::loop_isolation(false)]
    fn find_proj_methods_x(
        &self,
        ms: &Vec<(crate::context::ClassDefType, Context)>,
        rhs: &str,
        sub: &Type,
        opt_sup: &Option<Type>,
    ) -> (r: Option<Value>)
        ensures
            match r {
                Some(v) => find_proj_methods(
                    ctx_view(*self),
                    crate::context::methods_view(ms@),
                    rhs@,
                    type_view(*sub),
                    opt_type_view(*opt_sup),
                ) == Some(value_view(v)),
                None => find_proj_methods(
                    ctx_view(*self),
                    crate::context::methods_view(ms@),
                    rhs@,
                    type_view(*sub),
                    opt_type_view(*opt_sup),
                ) is None,
            },
    {
        proof {
            crate::context::lemma_methods_view(ms@);
            assert(crate::context::methods_view(ms@).subrange(0, ms@.len() as int)
                =~= crate::context::methods_view(ms@));
        }
        let n = ms.len();
        let mut i: usize = 0;
        while i < n
            invariant
                i <= n,
                n == ms@.len(),
                find_proj_methods(
                    ctx_view(*self),
                    crate::context::methods_view(ms@),
                    rhs@,
                    type_view(*sub),
                    opt_type_view(*opt_sup),
                ) == find_proj_methods(
                    ctx_view(*self),
                    crate::context::methods_view(ms@).subrange(i as int, n as int),
                    rhs@,
                    type_view(*sub),
                    opt_type_view(*opt_sup),
                ),
            decreases n - i,
        {
            let ghost pre = crate::context::methods_view(ms@).subrange(i as int, n as int);
            proof {
                assert(pre[0] == (crate::context::classdef_view(ms@[i as int].0), ctx_view(
                    ms@[i as int].1,
                )));
                assert(pre.drop_first() =~= crate::context::methods_view(ms@).subrange(
                    i as int + 1,
                    n as int,
                ));
            }
            let admitted: bool = match &ms[i].0 {
                crate::context::ClassDefType::ImplTrait { impl_trait, .. } => match opt_sup {
                    Some(sup) => self.supertype_of(impl_trait, sup),
                    None => self.supertype_of(impl_trait, sub),
                },
                _ => true,
            };
            if admitted {
                match ms[i].1.local_get_const(rhs) {
                    Some(v) => {
                        return Some(v);
                    },
                    None => {},
                }
            }
            i = i + 1;
        }
        None
    }

    /// The first candidate across the super-type chain.
    #[verifier::loop_isolation(false)]
    fn find_proj_x(
        &self,
        entries: &Vec<crate::context::NominalEntry>,
        rhs: &str,
        sub: &Type,
        opt_sup: &Option<Type>,
    ) -> (r: Option<(Value, usize, bool)>)
        ensures
            match r {
                Some(hit) => hit.1 < entries@.len() && find_proj(
                    ctx_view(*self),
                    crate::context::nominals_view(entries@),
                    rhs@,
                    type_view(*sub),
                    opt_type_view(*opt_sup),
                ) == Some(
                    (
                        value_view(hit.0),
                        crate::context::nominal_view(entries@[hit.1 as int]),
                        hit.2,
                    ),
                ),
                None => find_proj(
                    ctx_view(*self),
                    crate::context::nominals_view(entries@),
                    rhs@,
                    type_view(*sub),
                    opt_type_view(*opt_sup),
                ) is None,
            },
    {
        proof {
            crate::context::lemma_nominals_view(entries@);
            assert(crate::context::nominals_view(entries@).subrange(0, entries@.len() as int)
                =~= crate::context::nominals_view(entries@));
        }
        let n = entries.len();
        let mut i: usize = 0;
        while i < n
            invariant
                i <= n,
                n == entries@.len(),
                find_proj(
                    ctx_view(*self),
                    crate::context::nominals_view(entries@),
                    rhs@,
                    type_view(*sub),
                    opt_type_view(*opt_sup),
                ) == find_proj(
                    ctx_view(*self),
                    crate::context::nominals_view(entries@).subrange(i as int, n as int),
                    rhs@,
                    type_view(*sub),
                    opt_type_view(*opt_sup),
                ),
            decreases n - i,
        {
            let ghost pre = crate::context::nominals_view(entries@).subrange(i as int, n as int);
            proof {
                assert(pre[0] == crate::context::nominal_view(entries@[i as int]));
                assert(pre.drop_first() =~= crate::context::nominals_view(entries@).subrange(
                    i as int + 1,
                    n as int,
                ));
            }
            match entries[i].ctx.local_get_const(rhs) {
                Some(v) => {
                    return Some((v, i, false));
                },
                None => {},
            }
            match self.find_proj_methods_x(&entries[i].ctx.methods_list, rhs, sub, opt_sup) {
                Some(v) => {
                    return Some((v, i, true));
                },
                None => {},
            }
            i = i + 1;
        }
        None
    }

    /// Normalizes a type bottom-up; `level` is carried for diagnostics
    /// and `t_loc` locates errors at the reduced term.
    pub fn eval_t_params(&self, substituted: Type, level: usize, t_loc: Location) -> (r:
        EvalResult<Type>)
        ensures
            match r {
                Ok(u) => spec_eval_t_params(
                    ctx_view(*self),
                    type_view(substituted),
                    PROJ_FUEL as nat,
                ) == Ok::<_, ErrorKind>(type_view(u)),
                Err(e) => spec_eval_t_params(
                    ctx_view(*self),
                    type_view(substituted),
                    PROJ_FUEL as nat,
                ) == Err::<TypeV, _>(e.kind),
            },
    {
        self.eval_t_params_fuel(&substituted, level, t_loc, PROJ_FUEL)
    }

    /// The fuelled core of type reduction.
    #[verifier::rlimit(100)]
    pub fn eval_t_params_fuel(&self, t: &Type, level: usize, t_loc: Location, fuel: u64) -> (r:
        EvalResult<Type>)
        ensures
            match r {
                Ok(u) => spec_eval_t_params(ctx_view(*self), type_view(*t), fuel as nat) == Ok::<
                    _,
                    ErrorKind,
                >(type_view(u)),
                Err(e) => spec_eval_t_params(ctx_view(*self), type_view(*t), fuel as nat) == Err::<
                    TypeV,
                    _,
                >(e.kind),
            },
        decreases fuel, *t,
    {
        match t {
            Type::FreeVar(f) => {
                let fv: &crate::ty::FreeTyVar = f;
                proof {
                    assert(type_view(*t) == TypeV::FreeVar(Box::new(crate::ty::fvt_view(*fv))));
                }
                match fv {
                    crate::ty::FreeTyVar::Linked(u) => {
                        let inner: &Type = u;
                        proof {
                            assert(crate::ty::fvt_view(*fv) == crate::ty::FreeTyVarV::Linked(
                                Box::new(type_view(*inner)),
                            ));
                        }
                        self.eval_t_params_fuel(inner, level, t_loc, fuel)
                    },
                    _ => Ok(type_dup(t)),
                }
            },
            Type::Subr(su) => {
                let ghost sv = crate::ty::subrty_view(*su);
                let nd = self.etp_pts_x(&su.non_default_params, level, t_loc, fuel)?;
                let vp: Option<Box<crate::ty::ParamTy>> = match &su.var_params {
                    Some(p) => {
                        let inner: &crate::ty::ParamTy = p;
                        proof {
                            assert(sv.var_params matches Some(pv) && *pv == crate::ty::paramty_view(
                                *inner,
                            ));
                        }
                        let t2 = self.eval_t_params_fuel(&inner.t, level, t_loc, fuel)?;
                        Some(
                            Box::new(
                                crate::ty::ParamTy {
                                    name: crate::deep::opt_str_dup(&inner.name),
                                    t: t2,
                                },
                            ),
                        )
                    },
                    None => {
                        proof {
                            assert(sv.var_params is None);
                        }
                        None
                    },
                };
                proof {
                    assert(vp matches Some(b) ==> (sv.var_params matches Some(pv)
                        && spec_eval_t_params(ctx_view(*self), (*pv).t, fuel as nat) == Ok::<
                        _,
                        ErrorKind,
                    >(crate::ty::paramty_view(*b).t) && crate::ty::paramty_view(*b).name
                        == (*pv).name));
                }
                let dp = self.etp_pts_x(&su.default_params, level, t_loc, fuel)?;
                let rt = self.eval_t_params_fuel(&su.return_t, level, t_loc, fuel)?;
                let st = crate::ty::SubrType {
                    kind: su.kind,
                    non_default_params: nd,
                    var_params: vp,
                    default_params: dp,
                    return_t: Box::new(rt),
                };
                proof {
                    assert(crate::ty::subrty_view(st).kind == su.kind);
                    assert(st.var_params matches Some(b) ==> crate::ty::subrty_view(st).var_params
                        matches Some(bv) && *bv == crate::ty::paramty_view(*b));
                    assert(st.var_params is None ==> crate::ty::subrty_view(st).var_params is None);
                }
                let outt = Type::Subr(st);
                proof {
                    assert(type_view(outt) == (match spec_eval_t_params(
                        ctx_view(*self),
                        type_view(*t),
                        fuel as nat,
                    ) {
                        Ok(x) => x,
                        Err(_) => type_view(outt),
                    }));
                }
                Ok(outt)
            },
            Type::Refinement(rf) => {
                let t2 = self.eval_t_params_fuel(&rf.t, level, t_loc, fuel)?;
                let ps = self.etp_preds_x(&rf.preds)?;
                let out = crate::ty::RefinementType {
                    var: rf.var.clone(),
                    t: Box::new(t2),
                    preds: ps,
                };
                proof {
                    assert(crate::ty::refinement_view_probe(out));
                }
                Ok(Type::Refinement(out))
            },
            Type::MonoProj { lhs, rhs } => self.eval_proj(t, lhs, rhs, level, t_loc, fuel),
            Type::Ref(u) => {
                let x = self.eval_t_params_fuel(u, level, t_loc, fuel)?;
                Ok(Type::Ref(Box::new(x)))
            },
            Type::RefMut { before, after } => {
                let b2 = self.eval_t_params_fuel(before, level, t_loc, fuel)?;
                let a2: Option<Box<Type>> = match after {
                    Some(a) => Some(Box::new(self.eval_t_params_fuel(a, level, t_loc, fuel)?)),
                    None => None,
                };
                proof {
                    assert(a2 matches Some(x) ==> (type_view(*t)->RefMut_after matches Some(a0)
                        && spec_eval_t_params(ctx_view(*self), *a0, fuel as nat) == Ok::<
                        _,
                        ErrorKind,
                    >(type_view(*x))));
                }
                Ok(Type::RefMut { before: Box::new(b2), after: a2 })
            },
            Type::BuiltinPoly { name, params } => {
                let a = self.etp_tps_x(params)?;
                Ok(Type::BuiltinPoly { name: name.clone(), params: a })
            },
            Type::Poly { path, name, params } => {
                let a = self.etp_tps_x(params)?;
                Ok(Type::Poly { path: path.clone(), name: name.clone(), params: a })
            },
            Type::And(a, b) => {
                let x = self.eval_t_params_fuel(a, level, t_loc, fuel)?;
                let y = self.eval_t_params_fuel(b, level, t_loc, fuel)?;
                Ok(Type::And(Box::new(x), Box::new(y)))
            },
            Type::Or(a, b) => {
                let x = self.eval_t_params_fuel(a, level, t_loc, fuel)?;
                let y = self.eval_t_params_fuel(b, level, t_loc, fuel)?;
                Ok(Type::Or(Box::new(x), Box::new(y)))
            },
            Type::Not(a, b) => {
                let x = self.eval_t_params_fuel(a, level, t_loc, fuel)?;
                let y = self.eval_t_params_fuel(b, level, t_loc, fuel)?;
                Ok(Type::Not(Box::new(x), Box::new(y)))
            },
            other => {
                if other.is_monomorphic() {
                    Ok(type_dup(other))
                } else {
                    Err(EvalError::new(ErrorKind::Feature, t_loc, self.name.clone()))
                }
            },
        }
    }

    /// Resolves one projection.
    fn eval_proj(
        &self,
        whole: &Type,
        lhs: &Box<Type>,
        rhs: &String,
        level: usize,
        t_loc: Location,
        fuel: u64,
    ) -> (r: EvalResult<Type>)
        requires
            *whole is MonoProj,
            whole->MonoProj_lhs == *lhs,
            whole->MonoProj_rhs == *rhs,
        ensures
            match r {
                Ok(u) => spec_eval_t_params(ctx_view(*self), type_view(*whole), fuel as nat)
                    == Ok::<_, ErrorKind>(type_view(u)),
                Err(e) => spec_eval_t_params(ctx_view(*self), type_view(*whole), fuel as nat)
                    == Err::<TypeV, _>(e.kind),
            },
        decreases fuel, *whole, 0int,
    {
        let lhs_t: &Type = lhs;
        proof {
            assert(type_view(*whole) == (TypeV::MonoProj {
                lhs: Box::new(type_view(*lhs_t)),
                rhs: rhs@,
            }));
        }
        let sub0 = follow_type(lhs_t);
        let subsup: (Type, Option<Type>) = match sub0 {
            Type::FreeVar(f) => {
                let fv: &crate::ty::FreeTyVar = &f;
                proof {
                    assert(follow_t(type_view(*lhs_t)) == TypeV::FreeVar(
                        Box::new(crate::ty::fvt_view(*fv)),
                    ));
                }
                match fv {
                    crate::ty::FreeTyVar::Unbound { constraint, .. } => {
                        proof {
                            assert(crate::ty::fvt_view(*fv)->Unbound_constraint
                                == crate::ty::constraint_view(*constraint));
                        }
                        match constraint {
                            crate::ty::Constraint::Sandwiched { sub, sup } => {
                                (type_dup(sub), Some(type_dup(sup)))
                            },
                            _ => {
                                return Err(
                                    EvalError::new(
                                        ErrorKind::Unreachable,
                                        t_loc,
                                        self.name.clone(),
                                    ),
                                );
                            },
                        }
                    },
                    crate::ty::FreeTyVar::Linked(_) => {
                        proof {
                            lemma_follow_not_linked(type_view(*lhs_t));
                            assert(false);
                        }
                        (Type::Obj, None)
                    },
                }
            },
            other => (other, None),
        };
        let sub = subsup.0;
        let opt_sup = subsup.1;
        if sub.is_never() {
            return Ok(type_dup(whole));
        }
        let entries = match self.get_nominal_super_type_ctxs(&sub) {
            Some(es) => es,
            None => {
                return Err(EvalError::new(ErrorKind::NoVar, t_loc, self.name.clone()));
            },
        };
        match self.find_proj_x(&entries, rhs.as_str(), &sub, &opt_sup) {
            None => Err(
                EvalError::with_hint(
                    ErrorKind::NoCandidate,
                    t_loc,
                    self.name.clone(),
                    rhs.clone(),
                ),
            ),
            Some(hit) => {
                let (v, idx, via_methods) = hit;
                match v {
                    Value::Type(qbox) => {
                        let quant: Type = *qbox;
                        let subject: Type = if via_methods {
                            type_dup(lhs_t)
                        } else {
                            sub
                        };
                        let owner = &entries[idx].ctx;
                        proof {
                            crate::context::lemma_nominals_view(entries@);
                        }
                        let subject_tps = subject.typarams();
                        proof {
                            crate::ty::lemma_typarams_view(subject_tps@);
                        }
                        if owner.params.len() != subject_tps.len() {
                            return Err(
                                EvalError::new(ErrorKind::Unreachable, t_loc, self.name.clone()),
                            );
                        }
                        let sc = crate::subst::SubstContext::new(&subject, owner);
                        let t2 = match sc.substitute(quant, self, t_loc) {
                            Ok(x) => x,
                            Err(e) => {
                                return Err(e);
                            },
                        };
                        if fuel == 0 {
                            return Err(
                                EvalError::new(ErrorKind::Feature, t_loc, self.name.clone()),
                            );
                        }
                        self.eval_t_params_fuel(&t2, level, t_loc, fuel - 1)
                    },
                    _ => Err(EvalError::new(ErrorKind::Feature, t_loc, self.name.clone())),
                }
            },
        }
    }

    /// Reduces the type of each parameter of a subroutine-type row.
    #[verifier::loop_isolation(false)]
    fn etp_pts_x(
        &self,
        args: &Vec<crate::ty::ParamTy>,
        level: usize,
        t_loc: Location,
        fuel: u64,
    ) -> (r: EvalResult<Vec<crate::ty::ParamTy>>)
        ensures
            match r {
                Ok(a) => etp_pts(
                    ctx_view(*self),
                    crate::ty::paramtys_view(args@),
                    fuel as nat,
                ) == Ok::<_, ErrorKind>(crate::ty::paramtys_view(a@)),
                Err(e) => etp_pts(
                    ctx_view(*self),
                    crate::ty::paramtys_view(args@),
                    fuel as nat,
                ) == Err::<Seq<crate::ty::ParamTyV>, _>(e.kind),
            },
        decreases fuel, args@, 1int,
    {
        proof {
            crate::ty::lemma_paramtys_view(args@);
        }
        let ghost sv = crate::ty::paramtys_view(args@);
        let n = args.len();
        let mut out: Vec<crate::ty::ParamTy> = Vec::new();
        let mut i: usize = 0;
        proof {
            assert(sv.subrange(0, 0int) =~= Seq::<crate::ty::ParamTyV>::empty());
        }
        while i < n
            invariant
                i <= n,
                n == args@.len(),
                sv == crate::ty::paramtys_view(args@) && sv.len() == n,
                etp_pts(ctx_view(*self), sv.subrange(0, i as int), fuel as nat) == Ok::<
                    _,
                    ErrorKind,
                >(crate::ty::paramtys_view(out@)),
            decreases n - i,
        {
            proof {
                assert(decreases_to!(args@ => args@[i as int]));
                assert(decreases_to!(args@[i as int] => args@[i as int].t));
            }
            match self.eval_t_params_fuel(&args[i].t, level, t_loc, fuel) {
                Ok(t2) => {
                    let q = crate::ty::ParamTy {
                        name: crate::deep::opt_str_dup(&args[i].name),
                        t: t2,
                    };
                    let ghost prevseq = out@;
                    out.push(q);
                    proof {
                        assert(out@.drop_last() =~= prevseq);
                        assert(crate::ty::paramtys_view(out@) == crate::ty::paramtys_view(
                            prevseq,
                        ).push(crate::ty::paramty_view(out@.last())));
                        assert(sv.subrange(0, i as int + 1).drop_last() =~= sv.subrange(
                            0,
                            i as int,
                        ));
                        assert(sv.subrange(0, i as int + 1).last() == sv[i as int]);
                    }
                },
                Err(e) => {
                    proof {
                        lemma_etp_pts_err(ctx_view(*self), sv, i as int, n as int, e.kind, fuel as nat);
                        assert(sv.subrange(0, n as int) =~= sv);
                    }
                    return Err(e);
                },
            }
            i = i + 1;
        }
        proof {
            assert(sv.subrange(0, n as int) =~= sv);
        }
        Ok(out)
    }

    /// Reduces each type parameter of a polymorphic application.
    #[verifier::loop_isolation(false)]
    fn etp_tps_x(&self, args: &Vec<TyParam>) -> (r: EvalResult<Vec<TyParam>>)
        ensures
            match r {
                Ok(a) => etp_tps(ctx_view(*self), crate::ty::typarams_view(args@)) == Ok::<
                    _,
                    ErrorKind,
                >(crate::ty::typarams_view(a@)),
                Err(e) => etp_tps(ctx_view(*self), crate::ty::typarams_view(args@)) == Err::<
                    Seq<TyParamV>,
                    _,
                >(e.kind),
            },
    {
        proof {
            crate::ty::lemma_typarams_view(args@);
        }
        let ghost sv = crate::ty::typarams_view(args@);
        let n = args.len();
        let mut out: Vec<TyParam> = Vec::new();
        let mut i: usize = 0;
        proof {
            assert(sv.subrange(0, 0int) =~= Seq::<TyParamV>::empty());
        }
        while i < n
            invariant
                i <= n,
                n == args@.len(),
                sv == crate::ty::typarams_view(args@) && sv.len() == n,
                etp_tps(ctx_view(*self), sv.subrange(0, i as int)) == Ok::<_, ErrorKind>(
                    crate::ty::typarams_view(out@),
                ),
            decreases n - i,
        {
            match self.eval_tp(&args[i]) {
                Ok(q) => {
                    let ghost prevseq = out@;
                    out.push(q);
                    proof {
                        assert(out@.drop_last() =~= prevseq);
                        assert(crate::ty::typarams_view(out@) == crate::ty::typarams_view(
                            prevseq,
                        ).push(typaram_view(out@.last())));
                        assert(sv.subrange(0, i as int + 1).drop_last() =~= sv.subrange(
                            0,
                            i as int,
                        ));
                        assert(sv.subrange(0, i as int + 1).last() == sv[i as int]);
                    }
                },
                Err(e) => {
                    proof {
                        lemma_etp_tps_err(ctx_view(*self), sv, i as int, n as int, e.kind);
                        assert(sv.subrange(0, n as int) =~= sv);
                    }
                    return Err(e);
                },
            }
            i = i + 1;
        }
        proof {
            assert(sv.subrange(0, n as int) =~= sv);
        }
        Ok(out)
    }

    /// Reduces each predicate of a refinement, collecting a set.
    #[verifier::loop_isolation(false)]
    fn etp_preds_x(&self, preds: &Vec<Predicate>) -> (r: EvalResult<Vec<Predicate>>)
        ensures
            match r {
                Ok(a) => etp_preds(ctx_view(*self), crate::ty::preds_view(preds@)) == Ok::<
                    _,
                    ErrorKind,
                >(crate::ty::preds_view(a@)),
                Err(e) => etp_preds(ctx_view(*self), crate::ty::preds_view(preds@)) == Err::<
                    Seq<PredV>,
                    _,
                >(e.kind),
            },
    {
        proof {
            crate::ty::lemma_preds_view(preds@);
        }
        let ghost sv = crate::ty::preds_view(preds@);
        let n = preds.len();
        let mut out: Vec<Predicate> = Vec::new();
        let mut i: usize = 0;
        proof {
            assert(sv.subrange(0, 0int) =~= Seq::<PredV>::empty());
        }
        while i < n
            invariant
                i <= n,
                n == preds@.len(),
                sv == crate::ty::preds_view(preds@) && sv.len() == n,
                etp_preds(ctx_view(*self), sv.subrange(0, i as int)) == Ok::<_, ErrorKind>(
                    crate::ty::preds_view(out@),
                ),
            decreases n - i,
        {
            match self.eval_pred(&preds[i]) {
                Ok(q) => {
                    let present = self.pred_present(&out, &q);
                    if !present {
                        let ghost prevseq = out@;
                        out.push(q);
                        proof {
                            assert(out@.drop_last() =~= prevseq);
                            assert(crate::ty::preds_view(out@) == crate::ty::preds_view(
                                prevseq,
                            ).push(pred_view(out@.last())));
                        }
                    }
                    proof {
                        assert(sv.subrange(0, i as int + 1).drop_last() =~= sv.subrange(
                            0,
                            i as int,
                        ));
                        assert(sv.subrange(0, i as int + 1).last() == sv[i as int]);
                    }
                },
                Err(e) => {
                    proof {
                        lemma_etp_preds_err(ctx_view(*self), sv, i as int, n as int, e.kind);
                        assert(sv.subrange(0, n as int) =~= sv);
                    }
                    return Err(e);
                },
            }
            i = i + 1;
        }
        proof {
            assert(sv.subrange(0, n as int) =~= sv);
        }
        Ok(out)
    }

    /// Whether an equal predicate is already collected.
    #[verifier::loop_isolation(false)]
    fn pred_present(&self, out: &Vec<Predicate>, q: &Predicate) -> (r: bool)
        ensures
            r == exists|j: int|
                0 <= j < crate::ty::preds_view(out@).len() && crate::ty::preds_view(out@)[j]
                    == pred_view(*q),
    {
        proof {
            crate::ty::lemma_preds_view(out@);
        }
        let n = out.len();
        let mut i: usize = 0;
        while i < n
            invariant
                i <= n,
                n == out@.len(),
                forall|j: int| 0 <= j < i ==> crate::ty::preds_view(out@)[j] != pred_view(*q),
            decreases n - i,
        {
            if crate::deep::pred_eq(&out[i], q) {
                proof {
                    assert(crate::ty::preds_view(out@)[i as int] == pred_view(*q));
                }
                return true;
            }
            i = i + 1;
        }
        false
    }
}

/// The view of an optional filter type.
pub open spec fn opt_type_view(o: Option<Type>) -> Option<TypeV> {
    match o {
        Some(t) => Some(type_view(t)),
        None => None,
    }
}

proof fn lemma_etp_tps_err(c: ContextV, s: Seq<TyParamV>, i: int, k: int, e: ErrorKind)
    requires
        0 <= i < k <= s.len(),
        etp_tps(c, s.subrange(0, i)) is Ok,
        spec_eval_tp(c, s[i]) == Err::<TyParamV, ErrorKind>(e),
    ensures
        etp_tps(c, s.subrange(0, k)) == Err::<Seq<TyParamV>, ErrorKind>(e),
    decreases k,
{
    if k == i + 1 {
        assert(s.subrange(0, k).drop_last() =~= s.subrange(0, i));
        assert(s.subrange(0, k).last() == s[i]);
    } else {
        lemma_etp_tps_err(c, s, i, k - 1, e);
        assert(s.subrange(0, k).drop_last() =~= s.subrange(0, k - 1));
    }
}

proof fn lemma_etp_preds_err(c: ContextV, s: Seq<PredV>, i: int, k: int, e: ErrorKind)
    requires
        0 <= i < k <= s.len(),
        etp_preds(c, s.subrange(0, i)) is Ok,
        spec_eval_pred(c, s[i]) == Err::<PredV, ErrorKind>(e),
    ensures
        etp_preds(c, s.subrange(0, k)) == Err::<Seq<PredV>, ErrorKind>(e),
    decreases k,
{
    if k == i + 1 {
        assert(s.subrange(0, k).drop_last() =~= s.subrange(0, i));
        assert(s.subrange(0, k).last() == s[i]);
    } else {
        lemma_etp_preds_err(c, s, i, k - 1, e);
        assert(s.subrange(0, k).drop_last() =~= s.subrange(0, k - 1));
    }
}

proof fn lemma_etp_pts_err(
    c: ContextV,
    s: Seq<crate::ty::ParamTyV>,
    i: int,
    k: int,
    e: ErrorKind,
    fuel: nat,
)
    requires
        0 <= i < k <= s.len(),
        etp_pts(c, s.subrange(0, i), fuel) is Ok,
        spec_eval_t_params(c, s[i].t, fuel) == Err::<TypeV, ErrorKind>(e),
    ensures
        etp_pts(c, s.subrange(0, k), fuel) == Err::<Seq<crate::ty::ParamTyV>, ErrorKind>(e),
    decreases k,
{
    if k == i + 1 {
        assert(s.subrange(0, k).drop_last() =~= s.subrange(0, i));
        assert(s.subrange(0, k).last() == s[i]);
    } else {
        lemma_etp_pts_err(c, s, i, k - 1, e, fuel);
        assert(s.subrange(0, k).drop_last() =~= s.subrange(0, k - 1));
    }
}


// ---------------------------------------------------------------------
// The model of constant evaluation.
// ---------------------------------------------------------------------

/// The record key an identifier denotes.
pub open spec fn field_of_ident(id: crate::ast::Ident) -> crate::value::FieldV {
    crate::value::FieldV { vis: id.vis, name: id.name@ }
}

/// The first constant of a method table under a name.
pub open spec fn attr_in_methods(
    ms: Seq<(crate::context::ClassDefTypeV, ContextV)>,
    name: Seq<char>,
) -> Option<ValueV>
    decreases ms.len(),
{
    if ms.len() == 0 {
        None
    } else {
        match crate::context::consts_get(ms[0].1.consts, name) {
            Some(v) => Some(v),
            None => attr_in_methods(ms.drop_first(), name),
        }
    }
}

/// The first constant across the super-type chain: each scope's own
/// consts, then its method tables, in declaration order.
pub open spec fn attr_in_chain(
    entries: Seq<crate::context::NominalEntryV>,
    name: Seq<char>,
) -> Option<ValueV>
    decreases entries.len(),
{
    if entries.len() == 0 {
        None
    } else {
        match crate::context::consts_get(entries[0].ctx.consts, name) {
            Some(v) => Some(v),
            None => match attr_in_methods(entries[0].ctx.methods_list, name) {
                Some(v) => Some(v),
                None => attr_in_chain(entries.drop_first(), name),
            },
        }
    }
}

/// The model of attribute resolution: a directly readable field wins;
/// a reified type is searched through its nominal super-type chain;
/// otherwise there is no such attribute.
pub open spec fn spec_eval_attr(c: ContextV, obj: ValueV, id: crate::ast::Ident) -> Result<
    ValueV,
    ErrorKind,
> {
    match crate::classify::get_attr_v(obj, field_of_ident(id)) {
        Some(v) => Ok(v),
        None => match obj {
            ValueV::Type(t) => match crate::context::super_chain(c, *t) {
                Some(entries) => match attr_in_chain(entries, id.name@) {
                    Some(v) => Ok(v),
                    None => Err(ErrorKind::NoAttr),
                },
                None => Err(ErrorKind::NoAttr),
            },
            _ => Err(ErrorKind::NoAttr),
        },
    }
}

/// The singleton enumeration type of a value: the subset of its class
/// equal to it.
pub open spec fn v_enum_v(v: ValueV) -> Option<TypeV> {
    match class_of_v(v) {
        Some(cl) => Some(
            TypeV::Refinement(
                crate::ty::RefinementV {
                    var: "_"@,
                    t: Box::new(cl),
                    preds: seq![
                        PredV::Equal { lhs: "_"@, rhs: TyParamV::Value(v) },
                    ],
                },
            ),
        ),
        None => None,
    }
}

/// The model of a native call: a binary native takes exactly two
/// positional arguments, a unary one exactly one, and no keywords; the
/// operator's partial semantics applies, and its failure past type
/// checking is a compiler invariant violation.
pub open spec fn spec_call_native(op: crate::value::NativeOp, args: crate::value::ValueArgsV) -> Result<
    ValueV,
    ErrorKind,
> {
    if args.kw_args.len() != 0 {
        Err(ErrorKind::TypeMismatch)
    } else {
        match op {
            crate::value::NativeOp::Bin(k) => if args.pos_args.len() != 2 {
                Err(ErrorKind::TypeMismatch)
            } else {
                spec_eval_bin(k, args.pos_args[0], args.pos_args[1])
            },
            crate::value::NativeOp::Unary(k) => if args.pos_args.len() != 1 {
                Err(ErrorKind::TypeMismatch)
            } else {
                spec_eval_unary(k, args.pos_args[0])
            },
        }
    }
}

/// The model of a call to a subroutine value: user subroutines are
/// reserved; native ones apply their operator.
pub open spec fn spec_call(c: ContextV, subr: crate::value::ConstSubrV, args: crate::value::ValueArgsV) -> Result<
    ValueV,
    ErrorKind,
> {
    match subr {
        crate::value::ConstSubrV::User { .. } => Err(ErrorKind::Feature),
        crate::value::ConstSubrV::Builtin { op, .. } => spec_call_native(op, args),
    }
}

/// The model of constant evaluation of an expression. Arguments and
/// elements evaluate strictly, left to right; records evaluate their
/// attributes in a fresh transient scope over a copy of the current
/// one; lambdas capture their parameter types and derive their two
/// subroutine types; definitions are not expressions.
pub open spec fn spec_eval_expr(c: ContextV, e: crate::ast::Expr) -> Result<ValueV, ErrorKind>
    decreases e, 0int,
{
    match e {
        crate::ast::Expr::Lit(l) => match lit_value_v(lit_type(l.token.kind), l.token.content@) {
            Some(v) => Ok(v),
            None => Err(ErrorKind::Unreachable),
        },
        crate::ast::Expr::Accessor(acc) => spec_eval_acc(c, acc),
        crate::ast::Expr::BinOp(bin) => match spec_eval_expr(c, *bin.lhs) {
            Err(e2) => Err(e2),
            Ok(l) => match spec_eval_expr(c, *bin.rhs) {
                Err(e2) => Err(e2),
                Ok(r) => match op_of_token(bin.op.kind) {
                    Some(op) => spec_eval_bin(op, l, r),
                    None => Err(ErrorKind::Feature),
                },
            },
        },
        crate::ast::Expr::UnaryOp(un) => match spec_eval_expr(c, *un.expr) {
            Err(e2) => Err(e2),
            Ok(v) => match op_of_token(un.op.kind) {
                Some(op) => spec_eval_unary(op, v),
                None => Err(ErrorKind::Feature),
            },
        },
        crate::ast::Expr::Call(call) => spec_eval_call(c, call),
        crate::ast::Expr::Def(_) => Err(ErrorKind::Feature),
        crate::ast::Expr::Array(arr) => match arr {
            crate::ast::ArrayExpr::Normal(elems) => match spec_eval_elems(c, elems@) {
                Ok(vs) => Ok(ValueV::Array(vs)),
                Err(e2) => Err(e2),
            },
            _ => Err(ErrorKind::Feature),
        },
        crate::ast::Expr::Record(rec) => match rec {
            crate::ast::RecordExpr::Normal(defs) => spec_eval_record(c, defs@),
            crate::ast::RecordExpr::Shortened(_) => Err(ErrorKind::Unreachable),
        },
        crate::ast::Expr::Lambda(lam) => spec_eval_lambda(c, *lam),
        crate::ast::Expr::Tuple(_) => Err(ErrorKind::Feature),
    }
}

pub open spec fn spec_eval_acc(c: ContextV, acc: crate::ast::Accessor) -> Result<
    ValueV,
    ErrorKind,
>
    decreases acc, 0int,
{
    match acc {
        crate::ast::Accessor::Ident(id) => match rec_consts_get(c, id.name@) {
            Some(v) => Ok(v),
            None => if id.spec_is_const() {
                Err(ErrorKind::NoVar)
            } else {
                Err(ErrorKind::NotConstExpr)
            },
        },
        crate::ast::Accessor::Attr(attr) => match spec_eval_expr(c, *attr.obj) {
            Err(e2) => Err(e2),
            Ok(obj) => spec_eval_attr(c, obj, attr.ident),
        },
        _ => Err(ErrorKind::Feature),
    }
}

pub open spec fn spec_eval_elems(c: ContextV, s: Seq<crate::ast::PosArg>) -> Result<
    Seq<ValueV>,
    ErrorKind,
>
    decreases s, 0int,
{
    if s.len() == 0 {
        Ok(Seq::empty())
    } else {
        match (spec_eval_elems(c, s.drop_last()), spec_eval_expr(c, s.last().expr)) {
            (Ok(rest), Ok(last)) => Ok(rest.push(last)),
            (Err(e2), _) => Err(e2),
            (_, Err(e2)) => Err(e2),
        }
    }
}

pub open spec fn spec_eval_kw(c: ContextV, s: Seq<crate::ast::KwArg>) -> Result<
    Seq<(Seq<char>, ValueV)>,
    ErrorKind,
>
    decreases s, 0int,
{
    if s.len() == 0 {
        Ok(Seq::empty())
    } else {
        match (spec_eval_kw(c, s.drop_last()), spec_eval_expr(c, s.last().expr)) {
            (Ok(rest), Ok(last)) => Ok(rest.push((s.last().keyword@, last))),
            (Err(e2), _) => Err(e2),
            (_, Err(e2)) => Err(e2),
        }
    }
}

/// Arguments evaluate strictly: positional first, then keyword, each
/// left to right.
pub open spec fn spec_eval_args(c: ContextV, args: crate::ast::CallArgs) -> Result<
    crate::value::ValueArgsV,
    ErrorKind,
>
    decreases args, 0int,
{
    match (spec_eval_elems(c, args.pos_args@), spec_eval_kw(c, args.kw_args@)) {
        (Ok(ps), Ok(ks)) => Ok(crate::value::ValueArgsV { pos_args: ps, kw_args: ks }),
        (Err(e2), _) => Err(e2),
        (_, Err(e2)) => Err(e2),
    }
}

/// Only direct identifier callees are constant calls; the callee must
/// resolve to a subroutine value.
pub open spec fn spec_eval_call(c: ContextV, call: crate::ast::Call) -> Result<ValueV, ErrorKind>
    decreases call, 0int,
{
    match *call.obj {
        crate::ast::Expr::Accessor(acc) => match acc {
            crate::ast::Accessor::Ident(id) => match rec_consts_get(c, id.name@) {
                None => Err(ErrorKind::NoVar),
                Some(v) => match v {
                    ValueV::Subr(subr) => match spec_eval_args(c, call.args) {
                        Err(e2) => Err(e2),
                        Ok(a) => spec_call(c, subr, a),
                    },
                    _ => Err(ErrorKind::TypeMismatch),
                },
            },
            _ => Err(ErrorKind::Feature),
        },
        _ => Err(ErrorKind::Feature),
    }
}

/// Record attributes evaluate in source order inside the transient
/// record scope, which their definitions may grow.
pub open spec fn spec_eval_rec_attrs(rc: ContextV, defs: Seq<crate::ast::Def>) -> Result<
    Seq<(crate::value::FieldV, ValueV)>,
    ErrorKind,
>
    decreases defs, 0int,
{
    if defs.len() == 0 {
        Ok(Seq::empty())
    } else {
        let d = defs[0];
        let out = spec_eval_block(rc, d.body.block.chunks@);
        match out.1 {
            Err(e2) => Err(e2),
            Ok(v) => match d.sig {
                crate::ast::Signature::Var(vs) => match vs.pat {
                    crate::ast::VarPattern::Ident(id) => match spec_eval_rec_attrs(
                        out.0,
                        defs.drop_first(),
                    ) {
                        Ok(rest) => Ok(
                            seq![(crate::value::FieldV { vis: id.vis, name: id.name@ }, v)] + rest,
                        ),
                        Err(e2) => Err(e2),
                    },
                    _ => Err(ErrorKind::Feature),
                },
                _ => Err(ErrorKind::Feature),
            },
        }
    }
}

pub open spec fn spec_eval_record(c: ContextV, defs: Seq<crate::ast::Def>) -> Result<
    ValueV,
    ErrorKind,
>
    decreases defs, 1int,
{
    let rc0 = crate::context::fresh_ctx_v(
        "<unnamed record>"@,
        crate::context::ContextKind::Instant,
        crate::value::Visibility::Private,
        2,
        None,
        c.input,
        Some(Box::new(c)),
    );
    match spec_eval_rec_attrs(rc0, defs) {
        Ok(pairs) => Ok(ValueV::Record(pairs)),
        Err(e2) => Err(e2),
    }
}

/// The parameter row a lambda's signatures denote.
pub open spec fn sig_params_v(s: Seq<crate::ast::ParamSig>, lv: nat) -> Seq<crate::ty::ParamTyV>
    decreases s,
{
    if s.len() == 0 {
        Seq::empty()
    } else {
        sig_params_v(s.drop_last(), lv).push(
            crate::ty::ParamTyV {
                name: crate::ty::opt_str_view(s.last().name),
                t: crate::inst::param_sig_t_v(s.last(), lv),
            },
        )
    }
}

/// A lambda evaluates its body in a fresh transient scope over a copy
/// of the current one, then derives two subroutine types: one whose
/// return is the singleton enumeration of the body's value, and, when
/// that value stands for a type, one returning that type. Both are
/// generalized and wrapped with the syntax into a user subroutine.
pub open spec fn spec_eval_lambda(c: ContextV, lam: crate::ast::Lambda) -> Result<
    ValueV,
    ErrorKind,
>
    decreases lam, 0int,
{
    let lv = c.level;
    let nd = sig_params_v(lam.sig.params.non_defaults@, lv);
    let vp: Option<Box<crate::ty::ParamTyV>> = match lam.sig.params.var_args {
        Some(p) => Some(
            Box::new(
                crate::ty::ParamTyV {
                    name: crate::ty::opt_str_view((*p).name),
                    t: crate::inst::param_sig_t_v(*p, lv),
                },
            ),
        ),
        None => None,
    };
    let dp = sig_params_v(lam.sig.params.defaults@, lv);
    let lamc = crate::context::fresh_ctx_v(
        "<lambda>"@,
        crate::context::ContextKind::Instant,
        crate::value::Visibility::Private,
        0,
        None,
        c.input,
        Some(Box::new(c)),
    );
    let out = spec_eval_block(lamc, lam.body.chunks@);
    match out.1 {
        Err(e2) => Err(e2),
        Ok(rv) => match v_enum_v(rv) {
            None => Err(ErrorKind::Feature),
            Some(ret_enum) => {
                let kind = if lam.op.kind == crate::ast::TokenKind::ProcArrow {
                    crate::ty::SubrKind::Proc
                } else {
                    crate::ty::SubrKind::Func
                };
                let sig_t = crate::inst::gen_t(
                    TypeV::Subr(
                        crate::ty::SubrTypeV {
                            kind,
                            non_default_params: nd,
                            var_params: vp,
                            default_params: dp,
                            return_t: Box::new(ret_enum),
                        },
                    ),
                );
                let as_t: Option<TypeV> = match as_type_v(rv) {
                    Some(t) => Some(
                        crate::inst::gen_t(
                            TypeV::Subr(
                                crate::ty::SubrTypeV {
                                    kind,
                                    non_default_params: nd,
                                    var_params: vp,
                                    default_params: dp,
                                    return_t: Box::new(t),
                                },
                            ),
                        ),
                    ),
                    None => None,
                };
                Ok(
                    ValueV::Subr(
                        crate::value::ConstSubrV::User {
                            name: "<lambda>"@,
                            sig_t,
                            as_type: as_t,
                        },
                    ),
                )
            },
        },
    }
}

/// The model of one definition. A fresh transient scope named after
/// the bound constant is pushed, the body evaluates there, the scope's
/// declarations are checked and the scope popped whatever the outcome,
/// and the produced value is registered into the parent even when the
/// declaration check failed, so that later diagnostics see the
/// best-effort binding. A failing body leaves the parent unchanged.
pub open spec fn spec_eval_def(c: ContextV, d: crate::ast::Def) -> (ContextV, Result<
    ValueV,
    ErrorKind,
>)
    decreases d, 0int,
{
    if !d.spec_is_const() {
        (c, Err(ErrorKind::NotConstExpr))
    } else {
        let id = d.sig.spec_ident()->Some_0;
        let tv: Option<crate::context::TyVarContextV> = match d.sig {
            crate::ast::Signature::Subr(srs) => Some(
                crate::context::TyVarContextV {
                    level: c.level,
                    bounds: crate::inst::bound_specs_v(srs.bounds@),
                },
            ),
            _ => None,
        };
        let child = crate::context::fresh_ctx_v(
            id.name@,
            crate::context::ContextKind::Instant,
            d.sig.spec_vis(),
            c.level,
            tv,
            c.input,
            Some(Box::new(c)),
        );
        let out = spec_eval_block(child, d.body.block.chunks@);
        match out.1 {
            Err(e2) => (c, Err(e2)),
            Ok(v) => {
                if crate::context::consts_get(c.consts, id.name@) is Some {
                    (c, Err(ErrorKind::Reassign))
                } else {
                    let c2 = ContextV { consts: c.consts.push((id.name@, v)), ..c };
                    if crate::context::decls_ok(out.0) {
                        (c2, Ok(ValueV::NoneVal))
                    } else {
                        (c2, Err(ErrorKind::NoVar))
                    }
                }
            },
        }
    }
}

/// The model of one chunk: a definition mutates the scope; any other
/// expression is pure in it.
pub open spec fn spec_eval_chunk(c: ContextV, e: crate::ast::Expr) -> (ContextV, Result<
    ValueV,
    ErrorKind,
>)
    decreases e, 1int,
{
    match e {
        crate::ast::Expr::Def(d) => spec_eval_def(c, *d),
        _ => (c, spec_eval_expr(c, e)),
    }
}

/// The model of a block: the chunks before the last evaluate for their
/// effects, and the last gives the value.
pub open spec fn spec_eval_block(c: ContextV, chunks: Seq<crate::ast::Expr>) -> (ContextV, Result<
    ValueV,
    ErrorKind,
>)
    decreases chunks, 0int,
{
    if chunks.len() == 0 {
        (c, Err(ErrorKind::Unreachable))
    } else if chunks.len() == 1 {
        spec_eval_chunk(c, chunks[0])
    } else {
        let out = spec_eval_chunk(c, chunks[0]);
        match out.1 {
            Err(e2) => (out.0, Err(e2)),
            Ok(_) => spec_eval_block(out.0, chunks.drop_first()),
        }
    }
}

/// A scope's evaluation changes nothing but its const table.
pub open spec fn ctx_extends(c2: ContextV, c: ContextV) -> bool {
    c2 == (ContextV { consts: c2.consts, ..c })
}

/// One definition only grows the scope's const table.
pub proof fn lemma_def_extends(c: ContextV, d: crate::ast::Def)
    ensures
        ctx_extends(spec_eval_def(c, d).0, c),
{
    assert(c == (ContextV { consts: c.consts, ..c }));
}

/// One chunk only grows the scope's const table.
pub proof fn lemma_chunk_extends(c: ContextV, e: crate::ast::Expr)
    ensures
        ctx_extends(spec_eval_chunk(c, e).0, c),
{
    match e {
        crate::ast::Expr::Def(d) => {
            lemma_def_extends(c, *d);
        },
        _ => {
            assert(c == (ContextV { consts: c.consts, ..c }));
        },
    }
}

/// A block only grows the scope's const table.
pub proof fn lemma_block_extends(c: ContextV, chunks: Seq<crate::ast::Expr>)
    ensures
        ctx_extends(spec_eval_block(c, chunks).0, c),
    decreases chunks,
{
    if chunks.len() == 0 {
        assert(c == (ContextV { consts: c.consts, ..c }));
    } else if chunks.len() == 1 {
        lemma_chunk_extends(c, chunks[0]);
    } else {
        lemma_chunk_extends(c, chunks[0]);
        let out = spec_eval_chunk(c, chunks[0]);
        match out.1 {
            Err(_) => {},
            Ok(_) => {
                lemma_block_extends(out.0, chunks.drop_first());
            },
        }
    }
}


// ---------------------------------------------------------------------
// Executable constant evaluation.
// ---------------------------------------------------------------------

/// Builds the singleton enumeration type of a value.
fn v_enum_x(v: &Value) -> (r: Option<Type>)
    ensures
        match r {
            Some(t) => v_enum_v(value_view(*v)) == Some(type_view(t)),
            None => v_enum_v(value_view(*v)) is None,
        },
{
    match v.class() {
        Some(cl) => {
            let rhs_tp = TyParam::Value(value_dup(v));
            proof {
                assert(typaram_view(rhs_tp) == TyParamV::Value(value_view(*v)));
            }
            let pr = Predicate::Equal { lhs: "_".to_owned(), rhs: rhs_tp };
            proof {
                assert(pred_view(pr) == (PredV::Equal {
                    lhs: "_"@,
                    rhs: TyParamV::Value(value_view(*v)),
                }));
            }
            let mut preds: Vec<Predicate> = Vec::new();
            preds.push(pr);
            let out = crate::ty::RefinementType {
                var: "_".to_owned(),
                t: Box::new(cl),
                preds,
            };
            proof {
                crate::ty::lemma_preds_view(out.preds@);
                assert(crate::ty::preds_view(out.preds@) =~= seq![
                    PredV::Equal { lhs: "_"@, rhs: TyParamV::Value(value_view(*v)) },
                ]);
                assert(crate::ty::refinement_view_probe(out));
            }
            Some(Type::Refinement(out))
        },
        None => None,
    }
}

impl Context {
    /// The first constant of a method table under a name, as a copy.
    #[verifier::loop_isolation(false)]
    fn attr_in_methods_x(
        &self,
        ms: &Vec<(crate::context::ClassDefType, Context)>,
        name: &str,
    ) -> (r: Option<Value>)
        ensures
            match r {
                Some(v) => attr_in_methods(crate::context::methods_view(ms@), name@) == Some(
                    value_view(v),
                ),
                None => attr_in_methods(crate::context::methods_view(ms@), name@) is None,
            },
    {
        proof {
            crate::context::lemma_methods_view(ms@);
            assert(crate::context::methods_view(ms@).subrange(0, ms@.len() as int)
                =~= crate::context::methods_view(ms@));
        }
        let n = ms.len();
        let mut i: usize = 0;
        while i < n
            invariant
                i <= n,
                n == ms@.len(),
                attr_in_methods(crate::context::methods_view(ms@), name@) == attr_in_methods(
                    crate::context::methods_view(ms@).subrange(i as int, n as int),
                    name@,
                ),
            decreases n - i,
        {
            let ghost pre = crate::context::methods_view(ms@).subrange(i as int, n as int);
            proof {
                assert(pre[0] == (crate::context::classdef_view(ms@[i as int].0), ctx_view(
                    ms@[i as int].1,
                )));
                assert(pre.drop_first() =~= crate::context::methods_view(ms@).subrange(
                    i as int + 1,
                    n as int,
                ));
            }
            match ms[i].1.local_get_const(name) {
                Some(v) => {
                    return Some(v);
                },
                None => {},
            }
            i = i + 1;
        }
        None
    }

    /// The first constant across the super-type chain, as a copy.
    #[verifier::loop_isolation(false)]
    fn attr_in_chain_x(&self, entries: &Vec<crate::context::NominalEntry>, name: &str) -> (r:
        Option<Value>)
        ensures
            match r {
                Some(v) => attr_in_chain(crate::context::nominals_view(entries@), name@) == Some(
                    value_view(v),
                ),
                None => attr_in_chain(crate::context::nominals_view(entries@), name@) is None,
            },
    {
        proof {
            crate::context::lemma_nominals_view(entries@);
            assert(crate::context::nominals_view(entries@).subrange(0, entries@.len() as int)
                =~= crate::context::nominals_view(entries@));
        }
        let n = entries.len();
        let mut i: usize = 0;
        while i < n
            invariant
                i <= n,
                n == entries@.len(),
                attr_in_chain(crate::context::nominals_view(entries@), name@) == attr_in_chain(
                    crate::context::nominals_view(entries@).subrange(i as int, n as int),
                    name@,
                ),
            decreases n - i,
        {
            let ghost pre = crate::context::nominals_view(entries@).subrange(i as int, n as int);
            proof {
                assert(pre[0] == crate::context::nominal_view(entries@[i as int]));
                assert(pre.drop_first() =~= crate::context::nominals_view(entries@).subrange(
                    i as int + 1,
                    n as int,
                ));
            }
            match entries[i].ctx.local_get_const(name) {
                Some(v) => {
                    return Some(v);
                },
                None => {},
            }
            match self.attr_in_methods_x(&entries[i].ctx.methods_list, name) {
                Some(v) => {
                    return Some(v);
                },
                None => {},
            }
            i = i + 1;
        }
        None
    }

    /// Resolves an attribute on a value.
    pub fn eval_attr(&self, obj: Value, ident: &crate::ast::Ident) -> (r: EvalResult<Value>)
        ensures
            match r {
                Ok(v) => spec_eval_attr(ctx_view(*self), value_view(obj), *ident) == Ok::<
                    _,
                    ErrorKind,
                >(value_view(v)),
                Err(e) => spec_eval_attr(ctx_view(*self), value_view(obj), *ident) == Err::<
                    ValueV,
                    _,
                >(e.kind),
            },
    {
        let f = crate::value::Field::new(ident.vis, ident.name.clone());
        match obj.try_get_attr(&f) {
            Some(v) => {
                return Ok(v);
            },
            None => {},
        }
        if let Value::Type(t) = &obj {
            let inner: &Type = t;
            proof {
                assert(value_view(obj) == ValueV::Type(Box::new(type_view(*inner))));
            }
            match self.get_nominal_super_type_ctxs(inner) {
                Some(entries) => match self.attr_in_chain_x(&entries, ident.name.as_str()) {
                    Some(v) => {
                        return Ok(v);
                    },
                    None => {
                        return Err(
                            EvalError::new(ErrorKind::NoAttr, ident.loc, self.name.clone()),
                        );
                    },
                },
                None => {
                    return Err(
                        EvalError::new(ErrorKind::NoAttr, ident.loc, self.name.clone()),
                    );
                },
            }
        }
        Err(EvalError::new(ErrorKind::NoAttr, ident.loc, self.name.clone()))
    }

    /// Resolves a name or member access.
    pub fn eval_const_acc(&self, acc: &crate::ast::Accessor) -> (r: EvalResult<Value>)
        requires
            crate::ast::wf_acc(*acc),
        ensures
            match r {
                Ok(v) => spec_eval_acc(ctx_view(*self), *acc) == Ok::<_, ErrorKind>(
                    value_view(v),
                ),
                Err(e) => spec_eval_acc(ctx_view(*self), *acc) == Err::<ValueV, _>(e.kind),
            },
        decreases *acc, 2int,
    {
        match acc {
            crate::ast::Accessor::Ident(id) => match self.rec_get_const_obj(id.name.as_str()) {
                Some(v) => Ok(v),
                None => {
                    if id.is_const() {
                        let hint = self.get_similar_name(id.name.as_str());
                        match hint {
                            Some(h) => Err(
                                EvalError::with_hint(ErrorKind::NoVar, id.loc, self.name.clone(), h),
                            ),
                            None => Err(
                                EvalError::new(ErrorKind::NoVar, id.loc, self.name.clone()),
                            ),
                        }
                    } else {
                        Err(EvalError::new(ErrorKind::NotConstExpr, id.loc, self.name.clone()))
                    }
                },
            },
            crate::ast::Accessor::Attr(attr) => {
                let obj = self.eval_const_expr(&attr.obj, None)?;
                self.eval_attr(obj, &attr.ident)
            },
            _ => Err(
                EvalError::new(ErrorKind::Feature, Location::Unknown, self.name.clone()),
            ),
        }
    }

    /// Evaluates the arguments of a call, strictly and left to right.
    #[verifier::loop_isolation(false)]
    #[verifier::rlimit(100)]
    pub fn eval_args(&self, args: &crate::ast::CallArgs, _name: Option<&str>) -> (r: EvalResult<
        crate::value::ValueArgs,
    >)
        requires
            crate::ast::wf_pos_args(args.pos_args@),
            crate::ast::wf_kw_args(args.kw_args@),
        ensures
            match r {
                Ok(a) => spec_eval_args(ctx_view(*self), *args) == Ok::<_, ErrorKind>(
                    crate::value::valueargs_view(a),
                ),
                Err(e) => spec_eval_args(ctx_view(*self), *args) == Err::<
                    crate::value::ValueArgsV,
                    _,
                >(e.kind),
            },
        decreases *args, 2int,
    {
        let ghost pv = args.pos_args@;
        let np = args.pos_args.len();
        let mut pos: Vec<Value> = Vec::new();
        let mut i: usize = 0;
        proof {
            assert(pv.subrange(0, 0int) =~= Seq::<crate::ast::PosArg>::empty());
        }
        while i < np
            invariant
                i <= np,
                np == pv.len(),
                pv == args.pos_args@,
                spec_eval_elems(ctx_view(*self), pv.subrange(0, i as int)) == Ok::<_, ErrorKind>(
                    crate::value::values_view(pos@),
                ),
            decreases np - i,
        {
            proof {
                assert(decreases_to!(pv => pv[i as int]));
                assert(decreases_to!(pv[i as int] => pv[i as int].expr));
                crate::ast::lemma_wf_pos_args_index(pv, i as int);
            }
            match self.eval_const_expr(&args.pos_args[i].expr, _name) {
                Ok(v) => {
                    let ghost prevseq = pos@;
                    pos.push(v);
                    proof {
                        assert(pos@.drop_last() =~= prevseq);
                        assert(crate::value::values_view(pos@) == crate::value::values_view(
                            prevseq,
                        ).push(value_view(pos@.last())));
                        assert(pv.subrange(0, i as int + 1).drop_last() =~= pv.subrange(
                            0,
                            i as int,
                        ));
                        assert(pv.subrange(0, i as int + 1).last() == pv[i as int]);
                    }
                },
                Err(e) => {
                    proof {
                        lemma_elems_err(ctx_view(*self), pv, i as int, np as int, e.kind);
                        assert(pv.subrange(0, np as int) =~= pv);
                    }
                    return Err(e);
                },
            }
            i = i + 1;
        }
        proof {
            assert(pv.subrange(0, np as int) =~= pv);
        }
        let ghost kv = args.kw_args@;
        let nk = args.kw_args.len();
        let mut kws: Vec<(String, Value)> = Vec::new();
        let mut j: usize = 0;
        proof {
            assert(kv.subrange(0, 0int) =~= Seq::<crate::ast::KwArg>::empty());
        }
        while j < nk
            invariant
                j <= nk,
                nk == kv.len(),
                kv == args.kw_args@,
                spec_eval_kw(ctx_view(*self), kv.subrange(0, j as int)) == Ok::<_, ErrorKind>(
                    crate::value::kw_values_view(kws@),
                ),
            decreases nk - j,
        {
            proof {
                assert(decreases_to!(kv => kv[j as int]));
                assert(decreases_to!(kv[j as int] => kv[j as int].expr));
                crate::ast::lemma_wf_kw_args_index(kv, j as int);
            }
            match self.eval_const_expr(&args.kw_args[j].expr, _name) {
                Ok(v) => {
                    let kwname = args.kw_args[j].keyword.clone();
                    let ghost prevseq = kws@;
                    kws.push((kwname, v));
                    proof {
                        assert(kws@.drop_last() =~= prevseq);
                        assert(crate::value::kw_values_view(kws@) == crate::value::kw_values_view(
                            prevseq,
                        ).push((kws@.last().0@, value_view(kws@.last().1))));
                        assert(kv.subrange(0, j as int + 1).drop_last() =~= kv.subrange(
                            0,
                            j as int,
                        ));
                        assert(kv.subrange(0, j as int + 1).last() == kv[j as int]);
                    }
                },
                Err(e) => {
                    proof {
                        lemma_kw_err(ctx_view(*self), kv, j as int, nk as int, e.kind);
                        assert(kv.subrange(0, nk as int) =~= kv);
                    }
                    return Err(e);
                },
            }
            j = j + 1;
        }
        proof {
            assert(kv.subrange(0, nk as int) =~= kv);
        }
        Ok(crate::value::ValueArgs::new(pos, kws))
    }

    /// Invokes a subroutine value: native subroutines compute, user
    /// ones are reserved. A native failure is re-located at the call
    /// site.
    pub fn call(
        &self,
        subr: crate::value::ConstSubr,
        args: crate::value::ValueArgs,
        _name: Option<String>,
        loc: Location,
    ) -> (r: EvalResult<Value>)
        ensures
            match r {
                Ok(v) => spec_call(
                    ctx_view(*self),
                    crate::value::constsubr_view(subr),
                    crate::value::valueargs_view(args),
                ) == Ok::<_, ErrorKind>(value_view(v)),
                Err(e) => spec_call(
                    ctx_view(*self),
                    crate::value::constsubr_view(subr),
                    crate::value::valueargs_view(args),
                ) == Err::<ValueV, _>(e.kind) && e.loc == loc,
            },
    {
        match subr {
            crate::value::ConstSubr::User(_) => Err(
                EvalError::new(ErrorKind::Feature, loc, self.name.clone()),
            ),
            crate::value::ConstSubr::Builtin(b) => {
                proof {
                    crate::value::lemma_kw_values_view(args.kw_args@);
                    crate::value::lemma_values_view(args.pos_args@);
                }
                if args.kw_args.len() != 0 {
                    return Err(EvalError::new(ErrorKind::TypeMismatch, loc, self.name.clone()));
                }
                match b.op {
                    crate::value::NativeOp::Bin(k) => {
                        if args.pos_args.len() != 2 {
                            return Err(
                                EvalError::new(ErrorKind::TypeMismatch, loc, self.name.clone()),
                            );
                        }
                        let a0 = value_dup(&args.pos_args[0]);
                        let a1 = value_dup(&args.pos_args[1]);
                        match self.eval_bin(k, a0, a1) {
                            Ok(v) => Ok(v),
                            Err(e) => Err(EvalError::new(e.kind, loc, self.name.clone())),
                        }
                    },
                    crate::value::NativeOp::Unary(k) => {
                        if args.pos_args.len() != 1 {
                            return Err(
                                EvalError::new(ErrorKind::TypeMismatch, loc, self.name.clone()),
                            );
                        }
                        let a0 = value_dup(&args.pos_args[0]);
                        match self.eval_unary(k, a0) {
                            Ok(v) => Ok(v),
                            Err(e) => Err(EvalError::new(e.kind, loc, self.name.clone())),
                        }
                    },
                }
            },
        }
    }

    /// Evaluates a constant call: only a direct identifier callee that
    /// resolves to a subroutine value is a constant call.
    pub fn eval_const_call(&self, call: &crate::ast::Call, _name: Option<&str>) -> (r: EvalResult<
        Value,
    >)
        requires
            crate::ast::wf_expr(*call.obj),
            crate::ast::wf_pos_args(call.args.pos_args@),
            crate::ast::wf_kw_args(call.args.kw_args@),
        ensures
            match r {
                Ok(v) => spec_eval_call(ctx_view(*self), *call) == Ok::<_, ErrorKind>(
                    value_view(v),
                ),
                Err(e) => spec_eval_call(ctx_view(*self), *call) == Err::<ValueV, _>(e.kind),
            },
        decreases *call, 2int,
    {
        let obj: &crate::ast::Expr = &call.obj;
        match obj {
            crate::ast::Expr::Accessor(acc) => match acc {
                crate::ast::Accessor::Ident(id) => {
                    let looked = match self.rec_get_const_obj(id.name.as_str()) {
                        Some(v) => v,
                        None => {
                            let hint = self.get_similar_name(id.name.as_str());
                            return match hint {
                                Some(h) => Err(
                                    EvalError::with_hint(
                                        ErrorKind::NoVar,
                                        id.loc,
                                        self.name.clone(),
                                        h,
                                    ),
                                ),
                                None => Err(
                                    EvalError::new(ErrorKind::NoVar, id.loc, self.name.clone()),
                                ),
                            };
                        },
                    };
                    match looked {
                        Value::Subr(sb) => {
                            let a = self.eval_args(&call.args, _name)?;
                            let owned: Option<String> = None;
                            self.call(*sb, a, owned, call.loc)
                        },
                        _ => Err(
                            EvalError::new(ErrorKind::TypeMismatch, id.loc, self.name.clone()),
                        ),
                    }
                },
                _ => Err(
                    EvalError::new(ErrorKind::Feature, call.loc, self.name.clone()),
                ),
            },
            _ => Err(EvalError::new(ErrorKind::Feature, call.loc, self.name.clone())),
        }
    }

    /// Evaluates a constant expression; definitions are not admitted
    /// here.
    pub fn eval_const_expr(&self, e: &crate::ast::Expr, _name: Option<&str>) -> (r: EvalResult<
        Value,
    >)
        requires
            crate::ast::wf_expr(*e),
        ensures
            match r {
                Ok(v) => spec_eval_expr(ctx_view(*self), *e) == Ok::<_, ErrorKind>(
                    value_view(v),
                ),
                Err(er) => spec_eval_expr(ctx_view(*self), *e) == Err::<ValueV, _>(er.kind),
            },
        decreases *e, 3int,
    {
        match e {
            crate::ast::Expr::Lit(l) => Ok(eval_lit(l)),
            crate::ast::Expr::Accessor(acc) => self.eval_const_acc(acc),
            crate::ast::Expr::BinOp(bin) => {
                let l = self.eval_const_expr(&bin.lhs, _name)?;
                let r2 = self.eval_const_expr(&bin.rhs, _name)?;
                let op = try_get_op_kind_from_token(bin.op.kind);
                match op {
                    Ok(k) => self.eval_bin(k, l, r2),
                    Err(_) => Err(
                        EvalError::new(ErrorKind::Feature, bin.op.loc, self.name.clone()),
                    ),
                }
            },
            crate::ast::Expr::UnaryOp(un) => {
                let v = self.eval_const_expr(&un.expr, _name)?;
                let op = try_get_op_kind_from_token(un.op.kind);
                match op {
                    Ok(k) => self.eval_unary(k, v),
                    Err(_) => Err(
                        EvalError::new(ErrorKind::Feature, un.op.loc, self.name.clone()),
                    ),
                }
            },
            crate::ast::Expr::Call(call) => self.eval_const_call(call, _name),
            crate::ast::Expr::Def(d) => Err(
                EvalError::new(ErrorKind::Feature, d.body.block.loc(), self.name.clone()),
            ),
            crate::ast::Expr::Array(arr) => self.eval_const_array(arr),
            crate::ast::Expr::Record(rec) => self.eval_const_record(rec),
            crate::ast::Expr::Lambda(lam) => self.eval_const_lambda(lam),
            crate::ast::Expr::Tuple(_) => Err(
                EvalError::new(ErrorKind::Feature, Location::Unknown, self.name.clone()),
            ),
        }
    }

    /// Evaluates an array literal; only the normal form is evaluable.
    #[verifier::loop_isolation(false)]
    pub fn eval_const_array(&self, arr: &crate::ast::ArrayExpr) -> (r: EvalResult<Value>)
        requires
            match *arr {
                crate::ast::ArrayExpr::Normal(elems) => crate::ast::wf_pos_args(elems@),
                _ => true,
            },
        ensures
            match r {
                Ok(v) => spec_array(ctx_view(*self), *arr) == Ok::<_, ErrorKind>(value_view(v)),
                Err(e) => spec_array(ctx_view(*self), *arr) == Err::<ValueV, _>(e.kind),
            },
        decreases *arr, 2int,
    {
        match arr {
            crate::ast::ArrayExpr::Normal(elems) => {
                let ghost pv = elems@;
                let n = elems.len();
                let mut out: Vec<Value> = Vec::new();
                let mut i: usize = 0;
                proof {
                    assert(pv.subrange(0, 0int) =~= Seq::<crate::ast::PosArg>::empty());
                }
                while i < n
                    invariant
                        i <= n,
                        n == pv.len(),
                        pv == elems@,
                        spec_eval_elems(ctx_view(*self), pv.subrange(0, i as int)) == Ok::<
                            _,
                            ErrorKind,
                        >(crate::value::values_view(out@)),
                    decreases n - i,
                {
                    proof {
                        assert(decreases_to!(pv => pv[i as int]));
                        assert(decreases_to!(pv[i as int] => pv[i as int].expr));
                        crate::ast::lemma_wf_pos_args_index(pv, i as int);
                    }
                    match self.eval_const_expr(&elems[i].expr, None) {
                        Ok(v) => {
                            let ghost prevseq = out@;
                            out.push(v);
                            proof {
                                assert(out@.drop_last() =~= prevseq);
                                assert(crate::value::values_view(out@)
                                    == crate::value::values_view(prevseq).push(
                                    value_view(out@.last()),
                                ));
                                assert(pv.subrange(0, i as int + 1).drop_last() =~= pv.subrange(
                                    0,
                                    i as int,
                                ));
                                assert(pv.subrange(0, i as int + 1).last() == pv[i as int]);
                            }
                        },
                        Err(e) => {
                            proof {
                                lemma_elems_err(ctx_view(*self), pv, i as int, n as int, e.kind);
                                assert(pv.subrange(0, n as int) =~= pv);
                            }
                            return Err(e);
                        },
                    }
                    i = i + 1;
                }
                proof {
                    assert(pv.subrange(0, n as int) =~= pv);
                }
                Ok(Value::Array(out))
            },
            _ => Err(
                EvalError::new(ErrorKind::Feature, Location::Unknown, self.name.clone()),
            ),
        }
    }
}

/// The model of an array literal alone.
pub open spec fn spec_array(c: ContextV, arr: crate::ast::ArrayExpr) -> Result<ValueV, ErrorKind> {
    match arr {
        crate::ast::ArrayExpr::Normal(elems) => match spec_eval_elems(c, elems@) {
            Ok(vs) => Ok(ValueV::Array(vs)),
            Err(e2) => Err(e2),
        },
        _ => Err(ErrorKind::Feature),
    }
}

proof fn lemma_elems_err(c: ContextV, s: Seq<crate::ast::PosArg>, i: int, k: int, e: ErrorKind)
    requires
        0 <= i < k <= s.len(),
        spec_eval_elems(c, s.subrange(0, i)) is Ok,
        spec_eval_expr(c, s[i].expr) == Err::<ValueV, ErrorKind>(e),
    ensures
        spec_eval_elems(c, s.subrange(0, k)) == Err::<Seq<ValueV>, ErrorKind>(e),
    decreases k,
{
    if k == i + 1 {
        assert(s.subrange(0, k).drop_last() =~= s.subrange(0, i));
        assert(s.subrange(0, k).last() == s[i]);
    } else {
        lemma_elems_err(c, s, i, k - 1, e);
        assert(s.subrange(0, k).drop_last() =~= s.subrange(0, k - 1));
    }
}

proof fn lemma_kw_err(c: ContextV, s: Seq<crate::ast::KwArg>, i: int, k: int, e: ErrorKind)
    requires
        0 <= i < k <= s.len(),
        spec_eval_kw(c, s.subrange(0, i)) is Ok,
        spec_eval_expr(c, s[i].expr) == Err::<ValueV, ErrorKind>(e),
    ensures
        spec_eval_kw(c, s.subrange(0, k)) == Err::<Seq<(Seq<char>, ValueV)>, ErrorKind>(e),
    decreases k,
{
    if k == i + 1 {
        assert(s.subrange(0, k).drop_last() =~= s.subrange(0, i));
        assert(s.subrange(0, k).last() == s[i]);
    } else {
        lemma_kw_err(c, s, i, k - 1, e);
        assert(s.subrange(0, k).drop_last() =~= s.subrange(0, k - 1));
    }
}


/// The length and elements of a signature parameter row's view.
pub proof fn lemma_sig_params_v(s: Seq<crate::ast::ParamSig>, lv: nat)
    ensures
        sig_params_v(s, lv).len() == s.len(),
        forall|i: int| 0 <= i < s.len() ==> sig_params_v(s, lv)[i] == (crate::ty::ParamTyV {
            name: crate::ty::opt_str_view(s[i].name),
            t: crate::inst::param_sig_t_v(s[i], lv),
        }),
    decreases s,
{
    if s.len() > 0 {
        lemma_sig_params_v(s.drop_last(), lv);
    }
}

impl Context {
    /// Evaluates a record literal; the shortened form is desugared
    /// before evaluation and its appearance is a compiler invariant
    /// violation.
    pub fn eval_const_record(&self, rec: &crate::ast::RecordExpr) -> (r: EvalResult<Value>)
        requires
            match *rec {
                crate::ast::RecordExpr::Normal(defs) => crate::ast::wf_defs(defs@),
                _ => true,
            },
        ensures
            match r {
                Ok(v) => spec_rec(ctx_view(*self), *rec) == Ok::<_, ErrorKind>(value_view(v)),
                Err(e) => spec_rec(ctx_view(*self), *rec) == Err::<ValueV, _>(e.kind),
            },
        decreases *rec, 2int,
    {
        match rec {
            crate::ast::RecordExpr::Normal(defs) => self.eval_const_normal_record(defs),
            crate::ast::RecordExpr::Shortened(_) => Err(
                EvalError::new(ErrorKind::Unreachable, Location::Unknown, self.name.clone()),
            ),
        }
    }

    /// Evaluates the attributes of a record literal, in source order,
    /// inside a fresh transient scope over a copy of this one.
    #[verifier::loop_isolation(false)]
    pub fn eval_const_normal_record(&self, defs: &Vec<crate::ast::Def>) -> (r: EvalResult<Value>)
        requires
            crate::ast::wf_defs(defs@),
        ensures
            match r {
                Ok(v) => spec_eval_record(ctx_view(*self), defs@) == Ok::<_, ErrorKind>(
                    value_view(v),
                ),
                Err(e) => spec_eval_record(ctx_view(*self), defs@) == Err::<ValueV, _>(e.kind),
            },
        decreases defs@, 2int,
    {
        let mut record_ctx = Context::instant(
            "<unnamed record>".to_owned(),
            self.input.clone(),
            2,
            crate::context::ctx_dup(self),
        );
        let ghost rc0v = ctx_view(record_ctx);
        let ghost defsv = defs@;
        let n = defs.len();
        let mut attrs: Vec<(crate::value::Field, Value)> = Vec::new();
        let mut i: usize = 0;
        proof {
            crate::value::lemma_record_v_view(attrs@);
            assert(crate::value::record_v_view(attrs@) =~= Seq::<
                (crate::value::FieldV, ValueV),
            >::empty());
            assert(defsv.subrange(0, n as int) =~= defsv);
        }
        while i < n
            invariant
                i <= n,
                n == defsv.len(),
                defsv == defs@,
                rc0v == (crate::context::fresh_ctx_v(
                    "<unnamed record>"@,
                    crate::context::ContextKind::Instant,
                    crate::value::Visibility::Private,
                    2,
                    None,
                    ctx_view(*self).input,
                    Some(Box::new(ctx_view(*self))),
                )),
                match spec_eval_rec_attrs(ctx_view(record_ctx), defsv.subrange(i as int, n as int)) {
                    Ok(rest) => spec_eval_rec_attrs(rc0v, defsv) == Ok::<_, ErrorKind>(
                        crate::value::record_v_view(attrs@) + rest,
                    ),
                    Err(e2) => spec_eval_rec_attrs(rc0v, defsv) == Err::<
                        Seq<(crate::value::FieldV, ValueV)>,
                        ErrorKind,
                    >(e2),
                },
            decreases n - i,
        {
            let ghost tail = defsv.subrange(i as int, n as int);
            proof {
                assert(decreases_to!(defsv => defsv[i as int]));
                assert(tail[0] == defsv[i as int]);
                assert(tail.drop_first() =~= defsv.subrange(i as int + 1, n as int));
                crate::ast::lemma_wf_defs_index(defsv, i as int);
            }
            let d = &defs[i];
            let rbl = record_ctx.eval_const_block(&d.body.block, None);
            match rbl {
                Err(e) => {
                    return Err(e);
                },
                Ok(v) => {
                    match &d.sig {
                        crate::ast::Signature::Var(vs) => match &vs.pat {
                            crate::ast::VarPattern::Ident(id) => {
                                let f = crate::value::Field::new(id.vis, id.name.clone());
                                let ghost prevseq = attrs@;
                                let ghost vv = value_view(v);
                                attrs.push((f, v));
                                proof {
                                    assert(attrs@.drop_last() =~= prevseq);
                                    assert(crate::value::record_v_view(attrs@)
                                        == crate::value::record_v_view(prevseq).push(
                                        (
                                            crate::value::field_view(attrs@.last().0),
                                            value_view(attrs@.last().1),
                                        ),
                                    ));
                                    assert(match spec_eval_rec_attrs(
                                        ctx_view(record_ctx),
                                        defsv.subrange(i as int + 1, n as int),
                                    ) {
                                        Ok(rest) => crate::value::record_v_view(prevseq) + (seq![
                                            (
                                                crate::value::FieldV {
                                                    vis: id.vis,
                                                    name: id.name@,
                                                },
                                                vv,
                                            ),
                                        ] + rest) =~= crate::value::record_v_view(attrs@) + rest,
                                        Err(_) => true,
                                    });
                                }
                            },
                            _ => {
                                return Err(
                                    EvalError::new(
                                        ErrorKind::Feature,
                                        Location::Unknown,
                                        self.name.clone(),
                                    ),
                                );
                            },
                        },
                        _ => {
                            return Err(
                                EvalError::new(
                                    ErrorKind::Feature,
                                    Location::Unknown,
                                    self.name.clone(),
                                ),
                            );
                        },
                    }
                },
            }
            i = i + 1;
        }
        proof {
            assert(defsv.subrange(i as int, n as int).len() == 0);
            assert(spec_eval_rec_attrs(rc0v, defsv) == Ok::<_, ErrorKind>(
                crate::value::record_v_view(attrs@) + Seq::<
                    (crate::value::FieldV, ValueV),
                >::empty(),
            ));
            assert(crate::value::record_v_view(attrs@) + Seq::<
                (crate::value::FieldV, ValueV),
            >::empty() =~= crate::value::record_v_view(attrs@));
        }
        Ok(Value::Record(attrs))
    }

    /// Evaluates a lambda into a user-defined constant subroutine.
    pub fn eval_const_lambda(&self, lam: &crate::ast::Lambda) -> (r: EvalResult<Value>)
        requires
            crate::ast::wf_block(lam.body),
        ensures
            match r {
                Ok(v) => spec_eval_lambda(ctx_view(*self), *lam) == Ok::<_, ErrorKind>(
                    value_view(v),
                ),
                Err(e) => spec_eval_lambda(ctx_view(*self), *lam) == Err::<ValueV, _>(e.kind),
            },
        decreases *lam, 2int,
    {
        let bounds = match self.instantiate_ty_bounds(&lam.sig.bounds, crate::context::RegistrationMode::Normal) {
            Ok(b) => b,
            Err(e) => {
                proof {
                    assert(false);
                }
                return Err(e);
            },
        };
        let tv = crate::context::TyVarContext::new(self.level, bounds);
        let nd = self.sig_params_x(&lam.sig.params.non_defaults, &tv)?;
        let vp: Option<crate::ty::ParamTy> = match &lam.sig.params.var_args {
            Some(p) => {
                let inner: &crate::ast::ParamSig = p;
                let t = match self.instantiate_param_sig_t(
                    inner,
                    None,
                    Some(&tv),
                    crate::context::RegistrationMode::Normal,
                ) {
                    Ok(t) => t,
                    Err(e) => {
                        proof {
                            assert(false);
                        }
                        return Err(e);
                    },
                };
                Some(crate::ty::ParamTy { name: crate::deep::opt_str_dup(&inner.name), t })
            },
            None => None,
        };
        let dp = self.sig_params_x(&lam.sig.params.defaults, &tv)?;
        let mut lambda_ctx = Context::instant(
            "<lambda>".to_owned(),
            self.input.clone(),
            0,
            crate::context::ctx_dup(self),
        );
        let rv = lambda_ctx.eval_const_block(&lam.body, None)?;
        let ret_enum = match v_enum_x(&rv) {
            Some(t) => t,
            None => {
                return Err(
                    EvalError::new(ErrorKind::Feature, lam.op.loc, self.name.clone()),
                );
            },
        };
        let kind = if matches!(lam.op.kind, crate::ast::TokenKind::ProcArrow) {
            crate::ty::SubrKind::Proc
        } else {
            crate::ty::SubrKind::Func
        };
        let nd2 = crate::deep::paramtys_dup(&nd);
        let dp2 = crate::deep::paramtys_dup(&dp);
        let vp2: Option<crate::ty::ParamTy> = match &vp {
            Some(p) => Some(crate::deep::paramty_dup(p)),
            None => None,
        };
        let sig_t0 = crate::classify::subr_t(kind, nd, vp, dp, ret_enum);
        let sig_g = self.generalize_t(sig_t0);
        let as_t: Option<Type> = match rv.as_type() {
            Some(t) => {
                let as0 = crate::classify::subr_t(kind, nd2, vp2, dp2, t);
                Some(self.generalize_t(as0))
            },
            None => None,
        };
        let ghost sigv = type_view(sig_g);
        let ghost asv: Option<TypeV> = match &as_t {
            Some(t) => Some(type_view(*t)),
            None => None,
        };
        let user = crate::value::UserConstSubr {
            name: "<lambda>".to_owned(),
            params: lam.sig.params.clone(),
            block: crate::ast::dup_block(&lam.body),
            sig_t: sig_g,
            as_type: as_t,
        };
        proof {
            assert(crate::value::constsubr_view(crate::value::ConstSubr::User(user))
                == (crate::value::ConstSubrV::User {
                name: "<lambda>"@,
                sig_t: sigv,
                as_type: asv,
            }));
        }
        let subr = crate::value::ConstSubr::User(user);
        let out = Value::Subr(Box::new(subr));
        proof {
            assert(value_view(out) == ValueV::Subr(
                crate::value::ConstSubrV::User { name: "<lambda>"@, sig_t: sigv, as_type: asv },
            ));
        }
        Ok(out)
    }

    /// Instantiates the types of one parameter row of a lambda.
    #[verifier::loop_isolation(false)]
    fn sig_params_x(&self, sigs: &Vec<crate::ast::ParamSig>, tv: &crate::context::TyVarContext) -> (r:
        EvalResult<Vec<crate::ty::ParamTy>>)
        ensures
            r matches Ok(a) && crate::ty::paramtys_view(a@) == sig_params_v(
                sigs@,
                tv.level as nat,
            ),
    {
        proof {
            lemma_sig_params_v(sigs@, tv.level as nat);
        }
        let n = sigs.len();
        let mut out: Vec<crate::ty::ParamTy> = Vec::new();
        let mut i: usize = 0;
        while i < n
            invariant
                i <= n,
                n == sigs@.len(),
                out@.len() == i,
                forall|j: int| 0 <= j < i ==> crate::ty::paramty_view(out@[j]) == sig_params_v(
                    sigs@,
                    tv.level as nat,
                )[j],
            decreases n - i,
        {
            let t = match self.instantiate_param_sig_t(
                &sigs[i],
                None,
                Some(tv),
                crate::context::RegistrationMode::Normal,
            ) {
                Ok(t) => t,
                Err(e) => {
                    proof {
                        assert(false);
                    }
                    return Err(e);
                },
            };
            let pt = crate::ty::ParamTy { name: crate::deep::opt_str_dup(&sigs[i].name), t };
            out.push(pt);
            i = i + 1;
        }
        proof {
            crate::ty::lemma_paramtys_view(out@);
            assert(crate::ty::paramtys_view(out@) =~= sig_params_v(sigs@, tv.level as nat));
        }
        Ok(out)
    }

    /// Evaluates one definition; see the model for the scope protocol.
    pub fn eval_const_def(&mut self, def: &crate::ast::Def) -> (r: EvalResult<Value>)
        requires
            crate::ast::wf_block(def.body.block),
        ensures
            match r {
                Ok(v) => spec_eval_def(ctx_view(*old(self)), *def) == (
                    ctx_view(*final(self)),
                    Ok::<_, ErrorKind>(value_view(v)),
                ),
                Err(e) => spec_eval_def(ctx_view(*old(self)), *def) == (
                    ctx_view(*final(self)),
                    Err::<ValueV, _>(e.kind),
                ),
            },
        decreases *def, 9int,
    {
        if !def.is_const() {
            return Err(
                EvalError::new(
                    ErrorKind::NotConstExpr,
                    def.body.block.loc(),
                    self.name.clone(),
                ),
            );
        }
        let id: crate::ast::Ident = match def.sig.ident() {
            Some(id0) => crate::ast::Ident {
                name: id0.name.clone(),
                vis: id0.vis,
                loc: id0.loc,
            },
            None => {
                proof {
                    assert(false);
                }
                return Err(
                    EvalError::new(ErrorKind::Unreachable, Location::Unknown, self.name.clone()),
                );
            },
        };
        let tv: Option<crate::context::TyVarContext> = match &def.sig {
            crate::ast::Signature::Subr(srs) => {
                let bounds = match self.instantiate_ty_bounds(
                    &srs.bounds,
                    crate::context::RegistrationMode::Normal,
                ) {
                    Ok(b) => b,
                    Err(e) => {
                        proof {
                            assert(false);
                        }
                        return Err(e);
                    },
                };
                Some(crate::context::TyVarContext::new(self.level, bounds))
            },
            _ => None,
        };
        let vis = def.sig.vis();
        self.grow(id.name.as_str(), crate::context::ContextKind::Instant, vis, tv);
        let ghost childv = ctx_view(*self);
        let rbl = self.eval_const_block(&def.body.block, None);
        proof {
            lemma_block_extends(childv, def.body.block.chunks@);
        }
        match rbl {
            Err(e) => {
                proof {
                    assert(ctx_view(*self).outer == childv.outer);
                }
                self.pop();
                proof {
                    assert(ctx_view(*self) == ctx_view(*old(self)));
                }
                Err(e)
            },
            Ok(v) => {
                let ghost c2v = ctx_view(*self);
                let dr = self.check_decls_and_pop();
                proof {
                    assert(c2v.outer == childv.outer);
                    assert(ctx_view(*self) == ctx_view(*old(self)));
                }
                match self.register_gen_const(&id, v) {
                    Err(e) => Err(e),
                    Ok(()) => match dr {
                        Ok(()) => Ok(Value::NoneVal),
                        Err(e) => Err(e),
                    },
                }
            },
        }
    }

    /// Evaluates one chunk of a block: a definition mutates this scope;
    /// any other expression leaves it untouched.
    pub fn eval_const_chunk(&mut self, e: &crate::ast::Expr, _name: Option<&str>) -> (r:
        EvalResult<Value>)
        requires
            crate::ast::wf_expr(*e),
        ensures
            match r {
                Ok(v) => spec_eval_chunk(ctx_view(*old(self)), *e) == (
                    ctx_view(*final(self)),
                    Ok::<_, ErrorKind>(value_view(v)),
                ),
                Err(er) => spec_eval_chunk(ctx_view(*old(self)), *e) == (
                    ctx_view(*final(self)),
                    Err::<ValueV, _>(er.kind),
                ),
            },
            !(e is Def) ==> ctx_view(*final(self)) == ctx_view(*old(self)),
        decreases *e, 10int,
    {
        match e {
            crate::ast::Expr::Def(d) => self.eval_const_def(d),
            _ => self.eval_const_expr(e, _name),
        }
    }

    /// Evaluates a block: the chunks before the last run for their
    /// effects, the last gives the value. Blocks are non-empty by the
    /// caller's guarantee.
    #[verifier::loop_isolation(false)]
    pub fn eval_const_block(&mut self, block: &crate::ast::Block, _name: Option<&str>) -> (r:
        EvalResult<Value>)
        requires
            crate::ast::wf_block(*block),
        ensures
            match r {
                Ok(v) => spec_eval_block(ctx_view(*old(self)), block.chunks@) == (
                    ctx_view(*final(self)),
                    Ok::<_, ErrorKind>(value_view(v)),
                ),
                Err(er) => spec_eval_block(ctx_view(*old(self)), block.chunks@) == (
                    ctx_view(*final(self)),
                    Err::<ValueV, _>(er.kind),
                ),
            },
        decreases *block, 11int,
    {
        let ghost c0 = ctx_view(*self);
        let ghost chv = block.chunks@;
        proof {
            assert(chv.subrange(0, chv.len() as int) =~= chv);
        }
        let n = block.chunks.len();
        let mut i: usize = 0;
        while i < n - 1
            invariant
                i < n,
                n == chv.len(),
                n >= 1,
                chv == block.chunks@,
                crate::ast::wf_exprs(chv),
                spec_eval_block(c0, chv) == spec_eval_block(
                    ctx_view(*self),
                    chv.subrange(i as int, n as int),
                ),
            decreases n - i,
        {
            let ghost tail = chv.subrange(i as int, n as int);
            proof {
                assert(decreases_to!(chv => chv[i as int]));
                assert(tail[0] == chv[i as int]);
                assert(tail.len() >= 2);
                assert(tail.drop_first() =~= chv.subrange(i as int + 1, n as int));
                crate::ast::lemma_wf_exprs_index(chv, i as int);
            }
            match self.eval_const_chunk(&block.chunks[i], _name) {
                Ok(_) => {},
                Err(e) => {
                    return Err(e);
                },
            }
            i = i + 1;
        }
        let ghost tail = chv.subrange(i as int, n as int);
        proof {
            assert(decreases_to!(chv => chv[i as int]));
            assert(tail.len() == 1);
            assert(tail[0] == chv[i as int]);
            crate::ast::lemma_wf_exprs_index(chv, i as int);
        }
        self.eval_const_chunk(&block.chunks[i], _name)
    }
}

/// The model of a record expression.
pub open spec fn spec_rec(c: ContextV, rec: crate::ast::RecordExpr) -> Result<ValueV, ErrorKind> {
    match rec {
        crate::ast::RecordExpr::Normal(defs) => spec_eval_record(c, defs@),
        crate::ast::RecordExpr::Shortened(_) => Err(ErrorKind::Unreachable),
    }
}


// ---------------------------------------------------------------------
// The type of a type parameter, and shallow equality.
// ---------------------------------------------------------------------

/// The type of a reduced type parameter: a cell has the mutable
/// counterpart of its interior's class, a plain value its singleton
/// enumeration, an erased placeholder and an unbound variable carry
/// their type, and a reified type has the type of types.
pub open spec fn gtt_core(c: ContextV, q: TyParamV) -> Result<TypeV, ErrorKind> {
    match q {
        TyParamV::Value(v) => match v {
            ValueV::Mut(inner) => match class_of_v(*inner) {
                Some(cl) => match mutate_v(cl) {
                    Some(m) => Ok(m),
                    None => Err(ErrorKind::Feature),
                },
                None => Err(ErrorKind::Feature),
            },
            _ => match v_enum_v(v) {
                Some(t) => Ok(t),
                None => Err(ErrorKind::Feature),
            },
        },
        TyParamV::Erased(t) => Ok(*t),
        TyParamV::FreeVar(f) => match *f {
            crate::ty::FreeTyParamV::Unbound { t, .. } => Ok(*t),
            _ => Err(ErrorKind::Feature),
        },
        TyParamV::Type(_) => Ok(TypeV::Type),
        TyParamV::Mono(n) => match rec_consts_get(c, n) {
            Some(v) => match v_enum_v(v) {
                Some(t) => Ok(t),
                None => Err(ErrorKind::Feature),
            },
            None => Err(ErrorKind::Unreachable),
        },
        TyParamV::MonoQVar(_) => Err(ErrorKind::Unreachable),
        _ => Err(ErrorKind::Feature),
    }
}

/// The model of `get_tp_t`: reduce, then read the type off the result.
pub open spec fn spec_get_tp_t(c: ContextV, p: TyParamV) -> Result<TypeV, ErrorKind> {
    match spec_eval_tp(c, p) {
        Err(e) => Err(e),
        Ok(q) => gtt_core(c, q),
    }
}

/// The class of a reduced type parameter.
pub open spec fn gtc_core(c: ContextV, q: TyParamV) -> Result<TypeV, ErrorKind> {
    match q {
        TyParamV::Value(v) => match class_of_v(v) {
            Some(cl) => Ok(cl),
            None => Err(ErrorKind::Feature),
        },
        TyParamV::Erased(t) => Ok(*t),
        TyParamV::FreeVar(f) => match *f {
            crate::ty::FreeTyParamV::Unbound { t, .. } => Ok(*t),
            _ => Err(ErrorKind::Feature),
        },
        TyParamV::Type(_) => Ok(TypeV::Type),
        TyParamV::Mono(n) => match rec_consts_get(c, n) {
            Some(v) => match class_of_v(v) {
                Some(cl) => Ok(cl),
                None => Err(ErrorKind::Feature),
            },
            None => Err(ErrorKind::Unreachable),
        },
        _ => Err(ErrorKind::Feature),
    }
}

pub open spec fn spec_get_tp_class(c: ContextV, p: TyParamV) -> Result<TypeV, ErrorKind> {
    match spec_eval_tp(c, p) {
        Err(e) => Err(e),
        Ok(q) => gtc_core(c, q),
    }
}

/// The model of shallow equality: a quick sufficient test. Reified
/// types, values and erased placeholders compare structurally; two
/// free variables are accepted; monomorphic names compare by name or by
/// their constants; a name against a value compares through the
/// constant and accepts an unresolved name; lifted operators and
/// applications are not yet decided and answer conservatively; an
/// unresolved quantified variable answers conservatively.
pub open spec fn spec_shallow_eq(c: ContextV, l: TyParamV, r: TyParamV) -> bool {
    match (l, r) {
        (TyParamV::Type(a), TyParamV::Type(b)) => *a == *b,
        (TyParamV::Value(a), TyParamV::Value(b)) => a == b,
        (TyParamV::Erased(a), TyParamV::Erased(b)) => *a == *b,
        (TyParamV::FreeVar(_), TyParamV::FreeVar(_)) => true,
        (TyParamV::Mono(a), TyParamV::Mono(b)) => a == b || (match (
            rec_consts_get(c, a),
            rec_consts_get(c, b),
        ) {
            (Some(x), Some(y)) => x == y,
            _ => false,
        }),
        (TyParamV::BinOp { .. }, TyParamV::BinOp { .. }) => false,
        (TyParamV::UnaryOp { .. }, TyParamV::UnaryOp { .. }) => false,
        (TyParamV::App { .. }, TyParamV::App { .. }) => false,
        (TyParamV::Mono(m), TyParamV::Value(v)) => match rec_consts_get(c, m) {
            Some(o) => o == v,
            None => true,
        },
        (TyParamV::Value(v), TyParamV::Mono(m)) => match rec_consts_get(c, m) {
            Some(o) => o == v,
            None => true,
        },
        (TyParamV::MonoQVar(_), _) => false,
        (_, TyParamV::MonoQVar(_)) => false,
        _ => false,
    }
}

impl Context {
    /// The type of a type parameter.
    pub fn get_tp_t(&self, p: &TyParam) -> (r: EvalResult<Type>)
        ensures
            match r {
                Ok(t) => spec_get_tp_t(ctx_view(*self), typaram_view(*p)) == Ok::<_, ErrorKind>(
                    type_view(t),
                ),
                Err(e) => spec_get_tp_t(ctx_view(*self), typaram_view(*p)) == Err::<TypeV, _>(
                    e.kind,
                ),
            },
    {
        let q = self.eval_tp(p)?;
        match &q {
            TyParam::Value(v) => match v {
                Value::Mut(cell) => {
                    let inner: &Value = cell;
                    proof {
                        assert(value_view(*v) == ValueV::Mut(Box::new(value_view(*inner))));
                    }
                    match inner.class() {
                        Some(cl) => match cl.mutate() {
                            Some(m) => Ok(m),
                            None => Err(
                                EvalError::new(
                                    ErrorKind::Feature,
                                    Location::Unknown,
                                    self.name.clone(),
                                ),
                            ),
                        },
                        None => Err(
                            EvalError::new(
                                ErrorKind::Feature,
                                Location::Unknown,
                                self.name.clone(),
                            ),
                        ),
                    }
                },
                _ => match v_enum_x(v) {
                    Some(t) => Ok(t),
                    None => Err(
                        EvalError::new(ErrorKind::Feature, Location::Unknown, self.name.clone()),
                    ),
                },
            },
            TyParam::Erased(t) => Ok(type_dup(t)),
            TyParam::FreeVar(f) => {
                let fv: &FreeTyParam = f;
                proof {
                    assert(typaram_view(q) == TyParamV::FreeVar(
                        Box::new(crate::ty::fvtp_view(*fv)),
                    ));
                }
                match fv {
                    FreeTyParam::Unbound { t, .. } => Ok(type_dup(t)),
                    _ => Err(
                        EvalError::new(ErrorKind::Feature, Location::Unknown, self.name.clone()),
                    ),
                }
            },
            TyParam::Type(_) => Ok(Type::Type),
            TyParam::Mono(n) => match self.rec_get_const_obj(n.as_str()) {
                Some(v) => match v_enum_x(&v) {
                    Some(t) => Ok(t),
                    None => Err(
                        EvalError::new(ErrorKind::Feature, Location::Unknown, self.name.clone()),
                    ),
                },
                None => Err(
                    EvalError::new(ErrorKind::Unreachable, Location::Unknown, self.name.clone()),
                ),
            },
            TyParam::MonoQVar(_) => Err(
                EvalError::new(ErrorKind::Unreachable, Location::Unknown, self.name.clone()),
            ),
            _ => Err(
                EvalError::new(ErrorKind::Feature, Location::Unknown, self.name.clone()),
            ),
        }
    }

    /// The class of a type parameter.
    pub fn get_tp_class(&self, p: &TyParam) -> (r: EvalResult<Type>)
        ensures
            match r {
                Ok(t) => spec_get_tp_class(ctx_view(*self), typaram_view(*p)) == Ok::<
                    _,
                    ErrorKind,
                >(type_view(t)),
                Err(e) => spec_get_tp_class(ctx_view(*self), typaram_view(*p)) == Err::<
                    TypeV,
                    _,
                >(e.kind),
            },
    {
        let q = self.eval_tp(p)?;
        match &q {
            TyParam::Value(v) => match v.class() {
                Some(cl) => Ok(cl),
                None => Err(
                    EvalError::new(ErrorKind::Feature, Location::Unknown, self.name.clone()),
                ),
            },
            TyParam::Erased(t) => Ok(type_dup(t)),
            TyParam::FreeVar(f) => {
                let fv: &FreeTyParam = f;
                proof {
                    assert(typaram_view(q) == TyParamV::FreeVar(
                        Box::new(crate::ty::fvtp_view(*fv)),
                    ));
                }
                match fv {
                    FreeTyParam::Unbound { t, .. } => Ok(type_dup(t)),
                    _ => Err(
                        EvalError::new(ErrorKind::Feature, Location::Unknown, self.name.clone()),
                    ),
                }
            },
            TyParam::Type(_) => Ok(Type::Type),
            TyParam::Mono(n) => match self.rec_get_const_obj(n.as_str()) {
                Some(v) => match v.class() {
                    Some(cl) => Ok(cl),
                    None => Err(
                        EvalError::new(ErrorKind::Feature, Location::Unknown, self.name.clone()),
                    ),
                },
                None => Err(
                    EvalError::new(ErrorKind::Unreachable, Location::Unknown, self.name.clone()),
                ),
            },
            _ => Err(
                EvalError::new(ErrorKind::Feature, Location::Unknown, self.name.clone()),
            ),
        }
    }

    /// Reduces both sides of a bound.
    pub fn eval_bound(&self, bound: crate::ty::TyBound, level: usize, t_loc: Location) -> (r:
        EvalResult<crate::ty::TyBound>)
        ensures
            match r {
                Ok(b) => spec_eval_bound(ctx_view(*self), crate::ty::bound_view(bound)) == Ok::<
                    _,
                    ErrorKind,
                >(crate::ty::bound_view(b)),
                Err(e) => spec_eval_bound(ctx_view(*self), crate::ty::bound_view(bound)) == Err::<
                    crate::ty::TyBoundV,
                    _,
                >(e.kind),
            },
    {
        match bound {
            crate::ty::TyBound::Sandwiched { sub, mid, sup } => {
                let sub2 = self.eval_t_params(sub, level, t_loc)?;
                let mid2 = self.eval_t_params(mid, level, t_loc)?;
                let sup2 = self.eval_t_params(sup, level, t_loc)?;
                Ok(crate::ty::TyBound::Sandwiched { sub: sub2, mid: mid2, sup: sup2 })
            },
            crate::ty::TyBound::Instance { name, t } => {
                let t2 = self.eval_t_params(t, level, t_loc)?;
                Ok(crate::ty::TyBound::Instance { name, t: t2 })
            },
        }
    }

    /// A shallow, sufficient equality test on type parameters.
    pub fn shallow_eq_tp(&self, lhs: &TyParam, rhs: &TyParam) -> (r: bool)
        ensures
            r == spec_shallow_eq(ctx_view(*self), typaram_view(*lhs), typaram_view(*rhs)),
    {
        match lhs {
            TyParam::Type(a) => match rhs {
                TyParam::Type(b) => type_eq(a, b),
                TyParam::MonoQVar(_) => false,
                _ => false,
            },
            TyParam::Value(a) => match rhs {
                TyParam::Value(b) => value_eq(a, b),
                TyParam::Mono(m) => match self.rec_get_const_obj(m.as_str()) {
                    Some(o) => value_eq(&o, a),
                    None => true,
                },
                _ => false,
            },
            TyParam::Erased(a) => match rhs {
                TyParam::Erased(b) => type_eq(a, b),
                _ => false,
            },
            TyParam::FreeVar(_) => match rhs {
                TyParam::FreeVar(_) => true,
                _ => false,
            },
            TyParam::Mono(a) => match rhs {
                TyParam::Mono(b) => {
                    if crate::deep::str_eq(a.as_str(), b.as_str()) {
                        true
                    } else {
                        match (self.rec_get_const_obj(a.as_str()), self.rec_get_const_obj(
                            b.as_str(),
                        )) {
                            (Some(x), Some(y)) => value_eq(&x, &y),
                            _ => false,
                        }
                    }
                },
                TyParam::Value(v) => match self.rec_get_const_obj(a.as_str()) {
                    Some(o) => value_eq(&o, v),
                    None => true,
                },
                _ => false,
            },
            _ => false,
        }
    }
}

/// The model of bound reduction.
pub open spec fn spec_eval_bound(c: ContextV, b: crate::ty::TyBoundV) -> Result<
    crate::ty::TyBoundV,
    ErrorKind,
> {
    match b {
        crate::ty::TyBoundV::Sandwiched { sub, mid, sup } => {
            match (
                spec_eval_t_params(c, sub, PROJ_FUEL as nat),
                spec_eval_t_params(c, mid, PROJ_FUEL as nat),
                spec_eval_t_params(c, sup, PROJ_FUEL as nat),
            ) {
                (Ok(a), Ok(m), Ok(u)) => Ok(
                    crate::ty::TyBoundV::Sandwiched { sub: a, mid: m, sup: u },
                ),
                (Err(e), _, _) => Err(e),
                (_, Err(e), _) => Err(e),
                (_, _, Err(e)) => Err(e),
            }
        },
        crate::ty::TyBoundV::Instance { name, t } => match spec_eval_t_params(
            c,
            t,
            PROJ_FUEL as nat,
        ) {
            Ok(t2) => Ok(crate::ty::TyBoundV::Instance { name, t: t2 }),
            Err(e) => Err(e),
        },
    }
}

} // verus!
