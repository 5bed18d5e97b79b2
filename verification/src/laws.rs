//! The stated laws of the evaluator, as proved facts over its model.

use vstd::prelude::*;
use crate::arith::{
    add_num_v, div_num_v, eq_v, gcd_nat, is_num_v, mul_num_v, norm_ratio_v, num_d, num_n,
    num_ok_v, sub_num_v, try_bin_v, is_unit_v,
};
use crate::context::{ContextV, consts_get};
use crate::error::ErrorKind;
use crate::eval::{
    bin_op_supported, find_proj_methods, spec_eval_bin, spec_eval_chunk, spec_eval_def,
    spec_eval_expr,
};
use crate::ty::OpKind;
use crate::value::ValueV;

verus! {

/// Purity: evaluating any chunk that is not a definition is evaluating
/// the expression, and it leaves the scope exactly as it was. Together
/// with the evaluator being a function of the scope and the expression,
/// this is the determinism and byte-equality of constant evaluation.
pub proof fn lemma_purity(c: ContextV, e: crate::ast::Expr)
    requires
        !(e is Def),
    ensures
        spec_eval_chunk(c, e).0 == c,
        spec_eval_chunk(c, e).1 == spec_eval_expr(c, e),
{
}

/// Scope balance: a successful definition grows the parent's consts by
/// exactly one binding; a failed one leaves them unchanged, except that
/// the constant is still bound when the body succeeded and only the
/// declaration check failed. Nothing else of the parent changes.
pub proof fn lemma_scope_balance(c: ContextV, d: crate::ast::Def)
    ensures
        spec_eval_def(c, d).1 is Ok ==> spec_eval_def(c, d).0.consts.len() == c.consts.len() + 1
            && spec_eval_def(c, d).0.consts.subrange(0, c.consts.len() as int) == c.consts,
        spec_eval_def(c, d).1 is Err ==> spec_eval_def(c, d).0.consts == c.consts || (
        spec_eval_def(c, d).0.consts.len() == c.consts.len() + 1 && spec_eval_def(
            c,
            d,
        ).0.consts.subrange(0, c.consts.len() as int) == c.consts),
        crate::eval::ctx_extends(spec_eval_def(c, d).0, c),
{
    crate::eval::lemma_def_extends(c, d);
    let out = spec_eval_def(c, d);
    if out.0.consts.len() == c.consts.len() + 1 {
        assert(out.0.consts.subrange(0, c.consts.len() as int) =~= c.consts);
    } else {
        assert(out.0.consts =~= c.consts);
    }
}

/// Whether one method-table entry matches a projection: its impl is
/// admitted by the filter and it binds the projected name.
pub open spec fn method_matches(
    c: ContextV,
    m: (crate::context::ClassDefTypeV, ContextV),
    rhs: Seq<char>,
    sub: crate::ty::TypeV,
    opt_sup: Option<crate::ty::TypeV>,
) -> bool {
    (match m.0 {
        crate::context::ClassDefTypeV::ImplTrait { impl_trait, .. } => match opt_sup {
            Some(sup) => crate::context::supertype_of_v(c, impl_trait, sup),
            None => crate::context::supertype_of_v(c, impl_trait, sub),
        },
        _ => true,
    }) && consts_get(m.1.consts, rhs) is Some
}

/// Projection determinism: among the method tables of one scope, the
/// first matching impl in declaration order supplies the candidate,
/// whatever later impls would also match.
pub proof fn lemma_projection_first_match(
    c: ContextV,
    ms: Seq<(crate::context::ClassDefTypeV, ContextV)>,
    rhs: Seq<char>,
    sub: crate::ty::TypeV,
    opt_sup: Option<crate::ty::TypeV>,
    i: int,
)
    requires
        0 <= i < ms.len(),
        method_matches(c, ms[i], rhs, sub, opt_sup),
        forall|k: int| 0 <= k < i ==> !method_matches(c, ms[k], rhs, sub, opt_sup),
    ensures
        find_proj_methods(c, ms, rhs, sub, opt_sup) == consts_get(ms[i].1.consts, rhs),
    decreases i,
{
    if i == 0 {
    } else {
        assert(!method_matches(c, ms[0], rhs, sub, opt_sup));
        lemma_projection_first_match(c, ms.drop_first(), rhs, sub, opt_sup, i - 1);
        assert(ms.drop_first()[i - 1] == ms[i]);
        assert(forall|k: int| 0 <= k < i - 1 ==> ms.drop_first()[k] == ms[k + 1]);
    }
}

/// The classes the type checker admits for a binary operator, together
/// with the representability conditions it discharges: strings and
/// arrays concatenate; naturals and integers compute within their
/// ranges, the one most negative dividend aside; every comparable pair
/// compares. Rationals carry their own
/// reduction-dependent conditions inside the operation and are not
/// covered by this check.
/// Whether a number's parts lie within the machine representation.
pub open spec fn num_in_range(v: ValueV) -> bool {
    match v {
        ValueV::Int(n) => i64::MIN <= n <= i64::MAX,
        ValueV::Nat(n) => n <= u64::MAX,
        ValueV::Ratio { num, den } => i64::MIN <= num <= i64::MAX && 1 <= den <= u64::MAX,
        _ => true,
    }
}

pub open spec fn bin_pre_check(op: OpKind, a: ValueV, b: ValueV) -> bool {
    let int_tower = (a is Int || a is Nat) && (b is Int || b is Nat) && num_ok_v(a) && num_ok_v(b);
    match op {
        OpKind::Eq | OpKind::Ne => (a is Nat && b is Nat) || (is_num_v(a) && is_num_v(b)
            && num_ok_v(a) && num_ok_v(b)) || (a is Str && b is Str) || (a is Bool && b is Bool)
            || (is_unit_v(a) && is_unit_v(b)) || (a is Type && b is Type) || (a is Array
            && b is Array) || (a is Record && b is Record),
        OpKind::Gt | OpKind::Ge => (a is Nat && b is Nat) || (is_num_v(a) && is_num_v(b)
            && num_ok_v(a) && num_ok_v(b)),
        OpKind::Add => (a is Str && b is Str) || (a is Array && b is Array) || (a is Nat
            && b is Nat && a->Nat_0 + b->Nat_0 <= u64::MAX) || (int_tower && !(a is Nat
            && b is Nat) && i64::MIN <= num_n(a) + num_n(b) <= i64::MAX),
        OpKind::Sub => int_tower && i64::MIN <= num_n(a) - num_n(b) <= i64::MAX,
        OpKind::Mul => (a is Nat && b is Nat && a->Nat_0 * b->Nat_0 <= u64::MAX) || (int_tower && !(
        a is Nat && b is Nat) && i64::MIN <= num_n(a) * num_n(b) <= i64::MAX),
        OpKind::Div => int_tower && num_in_range(a) && num_in_range(b) && num_n(b) != 0 && num_n(
            a,
        ) != -0x8000_0000_0000_0000,
        _ => false,
    }
}

/// The quotient by a positive divisor does not grow.
proof fn lemma_div_le(m: nat, g: nat)
    requires
        g >= 1,
    ensures
        m / g <= m,
{
    assert(m / g <= m) by (nonlinear_arith)
        requires
            g >= 1,
    ;
}

/// Integer division keeps the reduced rational representable.
proof fn lemma_int_div_norm(n: int, d: nat)
    requires
        -0x8000_0000_0000_0000 <= n <= i64::MAX,
        1 <= d <= u64::MAX,
    ensures
        norm_ratio_v(n, d) is Some,
{
    let m = (if n < 0 { -n } else { n }) as nat;
    let g = gcd_nat(m, d);
    crate::arith::lemma_gcd_pos(m, d);
    lemma_div_le(m, g);
    lemma_div_le(d, g);
}

/// Operator totality after type checking: on every pair of values that
/// passes the pre-check, binary evaluation succeeds. A failure past the
/// pre-check is a compiler bug, not a user error.
pub proof fn lemma_bin_total_after_check(op: OpKind, a: ValueV, b: ValueV)
    requires
        bin_pre_check(op, a, b),
    ensures
        spec_eval_bin(op, a, b) is Ok,
{
    match op {
        OpKind::Div => {
            assert(num_d(a) == 1 && num_d(b) == 1);
            let bn = num_n(b);
            let n0 = num_n(a) * (num_d(b) as int);
            assert(n0 == num_n(a)) by (nonlinear_arith)
                requires
                    num_d(b) == 1,
                    n0 == num_n(a) * (num_d(b) as int),
            ;
            let n = if bn < 0 {
                -n0
            } else {
                n0
            };
            let babs = if bn < 0 {
                -bn
            } else {
                bn
            };
            let d = (babs * (num_d(a) as int)) as nat;
            assert(babs * (num_d(a) as int) == babs) by (nonlinear_arith)
                requires
                    num_d(a) == 1,
            ;
            assert(1 <= d <= u64::MAX);
            assert(-0x8000_0000_0000_0000 <= n <= i64::MAX);
            lemma_int_div_norm(n, d);
        },
        _ => {},
    }
}


// ---------------------------------------------------------------------
// Reduction idempotence.
// ---------------------------------------------------------------------

/// A successful binary reduction yields a value or an erased
/// placeholder.
proof fn lemma_bin_tp_output(c: ContextV, op: OpKind, l: crate::ty::TyParamV, r: crate::ty::TyParamV)
    requires
        crate::eval::spec_eval_bin_tp(c, op, l, r) is Ok,
    ensures
        crate::eval::spec_eval_bin_tp(c, op, l, r)->Ok_0 is Value || crate::eval::spec_eval_bin_tp(
            c,
            op,
            l,
            r,
        )->Ok_0 is Erased,
    decreases l, r,
{
    match (l, r) {
        (crate::ty::TyParamV::FreeVar(f), _) => match *f {
            crate::ty::FreeTyParamV::Linked(u) => {
                lemma_bin_tp_output(c, op, *u, r);
            },
            _ => {},
        },
        (_, crate::ty::TyParamV::FreeVar(f)) => match *f {
            crate::ty::FreeTyParamV::Linked(u) => {
                lemma_bin_tp_output(c, op, l, *u);
            },
            _ => {},
        },
        _ => {},
    }
}

/// A successful unary reduction yields a value or an erased
/// placeholder.
proof fn lemma_unary_tp_output(c: ContextV, op: OpKind, v: crate::ty::TyParamV)
    requires
        crate::eval::spec_eval_unary_tp(c, op, v) is Ok,
    ensures
        crate::eval::spec_eval_unary_tp(c, op, v)->Ok_0 is Value || crate::eval::spec_eval_unary_tp(
            c,
            op,
            v,
        )->Ok_0 is Erased,
    decreases v,
{
    match v {
        crate::ty::TyParamV::FreeVar(f) => match *f {
            crate::ty::FreeTyParamV::Linked(u) => {
                lemma_unary_tp_output(c, op, *u);
            },
            _ => {},
        },
        _ => {},
    }
}

/// Reducing a reduced type parameter changes nothing.
pub proof fn lemma_eval_tp_idem(c: ContextV, p: crate::ty::TyParamV)
    requires
        crate::eval::spec_eval_tp(c, p) is Ok,
    ensures
        crate::eval::spec_eval_tp(c, crate::eval::spec_eval_tp(c, p)->Ok_0) == crate::eval::spec_eval_tp(
            c,
            p,
        ),
    decreases p,
{
    match p {
        crate::ty::TyParamV::FreeVar(f) => match *f {
            crate::ty::FreeTyParamV::Linked(u) => {
                lemma_eval_tp_idem(c, *u);
            },
            _ => {},
        },
        crate::ty::TyParamV::BinOp { op, lhs, rhs } => {
            lemma_bin_tp_output(c, op, *lhs, *rhs);
        },
        crate::ty::TyParamV::UnaryOp { op, val } => {
            lemma_unary_tp_output(c, op, *val);
        },
        _ => {},
    }
}

/// Reducing a reduced predicate changes nothing.
pub proof fn lemma_eval_pred_idem(c: ContextV, p: crate::ty::PredV)
    requires
        crate::eval::spec_eval_pred(c, p) is Ok,
    ensures
        crate::eval::spec_eval_pred(c, crate::eval::spec_eval_pred(c, p)->Ok_0)
            == crate::eval::spec_eval_pred(c, p),
    decreases p,
{
    match p {
        crate::ty::PredV::Equal { lhs, rhs } => {
            lemma_eval_tp_idem(c, rhs);
        },
        crate::ty::PredV::NotEqual { lhs, rhs } => {
            lemma_eval_tp_idem(c, rhs);
        },
        crate::ty::PredV::LessEqual { lhs, rhs } => {
            lemma_eval_tp_idem(c, rhs);
        },
        crate::ty::PredV::GreaterEqual { lhs, rhs } => {
            lemma_eval_tp_idem(c, rhs);
        },
        crate::ty::PredV::And(a, b) => {
            lemma_eval_pred_idem(c, *a);
            lemma_eval_pred_idem(c, *b);
        },
        crate::ty::PredV::Or(a, b) => {
            lemma_eval_pred_idem(c, *a);
            lemma_eval_pred_idem(c, *b);
        },
        crate::ty::PredV::Not(a, b) => {
            lemma_eval_pred_idem(c, *a);
            lemma_eval_pred_idem(c, *b);
        },
        _ => {},
    }
}

/// Every collected predicate is reduced, and collected once.
proof fn lemma_etp_preds_shape(c: ContextV, s: Seq<crate::ty::PredV>)
    requires
        crate::eval::etp_preds(c, s) is Ok,
    ensures
        forall|j: int|
            0 <= j < crate::eval::etp_preds(c, s)->Ok_0.len() ==> (crate::eval::spec_eval_pred(
                c,
                #[trigger] crate::eval::etp_preds(c, s)->Ok_0[j],
            ) == Ok::<_, ErrorKind>(crate::eval::etp_preds(c, s)->Ok_0[j])),
        forall|j: int, k: int|
            0 <= j < k < crate::eval::etp_preds(c, s)->Ok_0.len() ==> crate::eval::etp_preds(
                c,
                s,
            )->Ok_0[j] != crate::eval::etp_preds(c, s)->Ok_0[k],
    decreases s,
{
    if s.len() > 0 {
        lemma_etp_preds_shape(c, s.drop_last());
        let rest = crate::eval::etp_preds(c, s.drop_last())->Ok_0;
        let last = crate::eval::spec_eval_pred(c, s.last())->Ok_0;
        lemma_eval_pred_idem(c, s.last());
        if !(exists|j: int| 0 <= j < rest.len() && rest[j] == last) {
            assert(crate::eval::etp_preds(c, s)->Ok_0 == rest.push(last));
        }
    }
}

/// Re-collecting an already collected set of predicates changes
/// nothing.
proof fn lemma_etp_preds_idem(c: ContextV, s: Seq<crate::ty::PredV>)
    requires
        crate::eval::etp_preds(c, s) is Ok,
    ensures
        crate::eval::etp_preds(c, crate::eval::etp_preds(c, s)->Ok_0) == crate::eval::etp_preds(
            c,
            s,
        ),
{
    lemma_etp_preds_shape(c, s);
    lemma_etp_preds_replay(c, crate::eval::etp_preds(c, s)->Ok_0);
}

/// Re-collecting any reduced, duplicate-free sequence of predicates
/// returns it unchanged.
proof fn lemma_etp_preds_replay(c: ContextV, o: Seq<crate::ty::PredV>)
    requires
        forall|j: int|
            0 <= j < o.len() ==> (crate::eval::spec_eval_pred(c, #[trigger] o[j]) == Ok::<
                _,
                ErrorKind,
            >(o[j])),
        forall|j: int, k: int| 0 <= j < k < o.len() ==> o[j] != o[k],
    ensures
        crate::eval::etp_preds(c, o) == Ok::<_, ErrorKind>(o),
    decreases o,
{
    if o.len() > 0 {
        lemma_etp_preds_replay(c, o.drop_last());
        assert(crate::eval::spec_eval_pred(c, o.last()) == Ok::<_, ErrorKind>(o.last()));
        let rest = o.drop_last();
        assert(crate::eval::etp_preds(c, rest) == Ok::<_, ErrorKind>(rest));
        assert(!(exists|j: int| 0 <= j < rest.len() && rest[j] == o.last())) by {
            assert forall|j: int| 0 <= j < rest.len() implies rest[j] != o.last() by {
                assert(o[j] != o[o.len() - 1]);
            }
        }
        assert(crate::eval::preds_insert(rest, o.last()) == rest.push(o.last()));
        assert(rest.push(o.last()) =~= o);
        assert(crate::eval::etp_preds(c, o) == Ok::<_, ErrorKind>(
            crate::eval::preds_insert(rest, o.last()),
        ));
        assert(crate::eval::etp_preds(c, o) == Ok::<_, ErrorKind>(o));
    } else {
        assert(o =~= Seq::<crate::ty::PredV>::empty());
    }
}

/// Reducing a reduced sequence of type parameters changes nothing.
proof fn lemma_etp_tps_idem(c: ContextV, s: Seq<crate::ty::TyParamV>)
    requires
        crate::eval::etp_tps(c, s) is Ok,
    ensures
        crate::eval::etp_tps(c, crate::eval::etp_tps(c, s)->Ok_0) == crate::eval::etp_tps(c, s),
    decreases s,
{
    if s.len() > 0 {
        lemma_etp_tps_idem(c, s.drop_last());
        lemma_eval_tp_idem(c, s.last());
        let o = crate::eval::etp_tps(c, s)->Ok_0;
        assert(o.drop_last() =~= crate::eval::etp_tps(c, s.drop_last())->Ok_0);
    }
}

/// Reducing a reduced type changes nothing, whatever budget the second
/// reduction is given: a reduced type holds no resolvable projection,
/// so the second pass consumes no budget.
pub proof fn lemma_reduction_idempotent(c: ContextV, t: crate::ty::TypeV, fuel: nat, fuel2: nat)
    requires
        crate::eval::spec_eval_t_params(c, t, fuel) is Ok,
    ensures
        crate::eval::spec_eval_t_params(
            c,
            crate::eval::spec_eval_t_params(c, t, fuel)->Ok_0,
            fuel2,
        ) == crate::eval::spec_eval_t_params(c, t, fuel),
    decreases fuel, t,
{
    let u = crate::eval::spec_eval_t_params(c, t, fuel)->Ok_0;
    match t {
        crate::ty::TypeV::FreeVar(f) => match *f {
            crate::ty::FreeTyVarV::Linked(inner) => {
                lemma_reduction_idempotent(c, *inner, fuel, fuel2);
            },
            _ => {},
        },
        crate::ty::TypeV::Subr(s) => {
            lemma_etp_pts_idem(c, s.non_default_params, fuel, fuel2);
            lemma_etp_pts_idem(c, s.default_params, fuel, fuel2);
            match s.var_params {
                Some(p) => {
                    lemma_reduction_idempotent(c, (*p).t, fuel, fuel2);
                },
                None => {},
            }
            lemma_reduction_idempotent(c, *s.return_t, fuel, fuel2);
        },
        crate::ty::TypeV::Refinement(rf) => {
            lemma_reduction_idempotent(c, *rf.t, fuel, fuel2);
            lemma_etp_preds_idem(c, rf.preds);
        },
        crate::ty::TypeV::MonoProj { lhs, rhs } => {
            match crate::eval::proj_subsup(*lhs) {
                Err(_) => {},
                Ok((sub, opt_sup)) => {
                    if !(sub is Never) {
                        lemma_proj_resolved_idem(c, t, *lhs, rhs, sub, opt_sup, fuel, fuel2);
                    } else {
                        assert(u == t);
                    }
                },
            }
        },
        crate::ty::TypeV::Ref(inner) => {
            lemma_reduction_idempotent(c, *inner, fuel, fuel2);
        },
        crate::ty::TypeV::RefMut { before, after } => {
            lemma_reduction_idempotent(c, *before, fuel, fuel2);
            match after {
                Some(a) => {
                    lemma_reduction_idempotent(c, *a, fuel, fuel2);
                },
                None => {},
            }
        },
        crate::ty::TypeV::BuiltinPoly { name, params } => {
            lemma_etp_tps_idem(c, params);
        },
        crate::ty::TypeV::Poly { path, name, params } => {
            lemma_etp_tps_idem(c, params);
        },
        crate::ty::TypeV::And(a, b) => {
            lemma_reduction_idempotent(c, *a, fuel, fuel2);
            lemma_reduction_idempotent(c, *b, fuel, fuel2);
        },
        crate::ty::TypeV::Or(a, b) => {
            lemma_reduction_idempotent(c, *a, fuel, fuel2);
            lemma_reduction_idempotent(c, *b, fuel, fuel2);
        },
        crate::ty::TypeV::Not(a, b) => {
            lemma_reduction_idempotent(c, *a, fuel, fuel2);
            lemma_reduction_idempotent(c, *b, fuel, fuel2);
        },
        _ => {},
    }
}

/// The resolved-projection case of idempotence.
#[verifier::rlimit(100)]
#[verifier::spinoff_prover]
proof fn lemma_proj_resolved_idem(
    c: ContextV,
    t: crate::ty::TypeV,
    lhs: crate::ty::TypeV,
    rhs: Seq<char>,
    sub: crate::ty::TypeV,
    opt_sup: Option<crate::ty::TypeV>,
    fuel: nat,
    fuel2: nat,
)
    requires
        t == (crate::ty::TypeV::MonoProj { lhs: Box::new(lhs), rhs }),
        crate::eval::spec_eval_t_params(c, t, fuel) is Ok,
        crate::eval::proj_subsup(lhs) == Ok::<(crate::ty::TypeV, Option<crate::ty::TypeV>), ErrorKind>(
            (sub, opt_sup),
        ),
        !(sub is Never),
    ensures
        crate::eval::spec_eval_t_params(
            c,
            crate::eval::spec_eval_t_params(c, t, fuel)->Ok_0,
            fuel2,
        ) == crate::eval::spec_eval_t_params(c, t, fuel),
    decreases fuel, t, 0int,
{
    match crate::context::super_chain(c, sub) {
        None => {},
        Some(entries) => match crate::eval::find_proj(c, entries, rhs, sub, opt_sup) {
            None => {},
            Some((v, entry, via_methods)) => {
                if v is Type {
                    let quant = *v->Type_0;
                    let subject = if via_methods {
                        lhs
                    } else {
                        sub
                    };
                    if entry.ctx.params.len() == crate::classify::typarams_v(subject).len() {
                        let sc = crate::subst::SubstContextV {
                            bounds: entry.ctx.bounds,
                            params: crate::subst::zip_params(
                                entry.ctx.params,
                                crate::classify::typarams_v(subject),
                            ),
                        };
                        match crate::subst::subst_apply(sc, c.level, quant) {
                            Err(_) => {},
                            Ok(t2) => {
                                if fuel > 0 {
                                    lemma_reduction_idempotent(c, t2, (fuel - 1) as nat, fuel2);
                                }
                            },
                        }
                    }
                }
            },
        },
    }
}

/// Reducing a reduced subroutine parameter row changes nothing.
proof fn lemma_etp_pts_idem(c: ContextV, s: Seq<crate::ty::ParamTyV>, fuel: nat, fuel2: nat)
    requires
        crate::eval::etp_pts(c, s, fuel) is Ok,
    ensures
        crate::eval::etp_pts(c, crate::eval::etp_pts(c, s, fuel)->Ok_0, fuel2)
            == crate::eval::etp_pts(c, s, fuel),
    decreases fuel, s,
{
    if s.len() > 0 {
        lemma_etp_pts_idem(c, s.drop_last(), fuel, fuel2);
        lemma_reduction_idempotent(c, s.last().t, fuel, fuel2);
        let o = crate::eval::etp_pts(c, s, fuel)->Ok_0;
        assert(o.drop_last() =~= crate::eval::etp_pts(c, s.drop_last(), fuel)->Ok_0);
    }
}

} // verus!
