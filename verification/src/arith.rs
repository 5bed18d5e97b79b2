//! The partial arithmetic, comparison and mutation on values.
//!
//! Values support a partial binary operation per operator: numbers form
//! a tower (naturals, integers, rationals) with promotion; strings and
//! arrays concatenate under addition; equality is decided on numbers,
//! strings, booleans, the unit-like constants, reified types, arrays
//! and records. An operation is undefined (returns nothing) outside its
//! domain or where a result would not be representable; the evaluator
//! reports such a case as a compiler invariant violation, because the
//! type checker admits only well-classed operands.
//!
//! Rational results are normalized: magnitudes are reduced by their
//! greatest common divisor and the sign lives in the numerator. A
//! natural too large for the signed range takes part only in operations
//! on naturals; mixed with wider classes it is out of range.

use vstd::prelude::*;
use crate::ty::OpKind;
use crate::value::{Value, ValueV, value_view, lemma_values_view_concat};
use crate::deep::{type_eq, values_eq, record_v_eq, values_dup};

verus! {

/// The greatest common divisor, by Euclid's rule.
pub open spec fn gcd_nat(a: nat, b: nat) -> nat
    decreases b,
{
    if b == 0 {
        a
    } else {
        gcd_nat(b, a % b)
    }
}

/// Computes the greatest common divisor.
pub fn gcd_u128(a: u128, b: u128) -> (r: u128)
    ensures
        r as nat == gcd_nat(a as nat, b as nat),
    decreases b as nat,
{
    if b == 0 {
        a
    } else {
        gcd_u128(b, a % b)
    }
}

/// Euclid's rule never returns zero unless both arguments are zero.
pub proof fn lemma_gcd_pos(a: nat, b: nat)
    requires
        a > 0 || b > 0,
    ensures
        gcd_nat(a, b) > 0,
    decreases b,
{
    if b > 0 {
        lemma_gcd_pos(b, a % b);
    }
}

pub open spec fn is_num_v(v: ValueV) -> bool {
    v is Int || v is Nat || v is Ratio
}

/// Whether a number is in range for mixed arithmetic: a natural must
/// fit the signed range, and a rational must carry a positive
/// denominator (raw values are not otherwise forced to be well-formed).
pub open spec fn num_ok_v(v: ValueV) -> bool {
    match v {
        ValueV::Nat(n) => n <= i64::MAX,
        ValueV::Ratio { den, .. } => den >= 1,
        _ => true,
    }
}

/// The numerator of a numeric value.
pub open spec fn num_n(v: ValueV) -> int {
    match v {
        ValueV::Int(n) => n,
        ValueV::Nat(n) => n as int,
        ValueV::Ratio { num, .. } => num,
        _ => 0,
    }
}

/// The denominator of a numeric value.
pub open spec fn num_d(v: ValueV) -> nat {
    match v {
        ValueV::Ratio { den, .. } => den,
        _ => 1,
    }
}

/// The bound on unreduced rational numerators: results whose unreduced
/// numerator exceeds it in magnitude are not representable.
pub open spec fn rat_mid_max() -> int {
    i128::MAX as int
}

/// Builds the reduced rational `n / d`, when its parts fit the machine
/// representation.
pub open spec fn norm_ratio_v(n: int, d: nat) -> Option<ValueV> {
    let m = (if n < 0 { -n } else { n }) as nat;
    let g = gcd_nat(m, d);
    let n2 = m / g;
    let d2 = d / g;
    if d2 <= u64::MAX && ((n >= 0 && n2 <= i64::MAX) || (n < 0 && n2 <= 0x8000_0000_0000_0000)) {
        Some(
            ValueV::Ratio {
                num: if n < 0 {
                    -(n2 as int)
                } else {
                    n2 as int
                },
                den: d2,
            },
        )
    } else {
        None
    }
}

/// Addition on numbers: naturals stay natural, integers stay integral,
/// rationals combine over a common denominator; results out of range
/// are undefined.
pub open spec fn add_num_v(a: ValueV, b: ValueV) -> Option<ValueV> {
    if a is Nat && b is Nat {
        let s = a->Nat_0 + b->Nat_0;
        if s <= u64::MAX {
            Some(ValueV::Nat(s))
        } else {
            None
        }
    } else if !num_ok_v(a) || !num_ok_v(b) {
        None
    } else if a is Ratio || b is Ratio {
        let n = num_n(a) * (num_d(b) as int) + num_n(b) * (num_d(a) as int);
        if -rat_mid_max() <= n <= rat_mid_max() {
            norm_ratio_v(n, num_d(a) * num_d(b))
        } else {
            None
        }
    } else {
        let s = num_n(a) + num_n(b);
        if i64::MIN <= s <= i64::MAX {
            Some(ValueV::Int(s))
        } else {
            None
        }
    }
}

/// Subtraction on numbers; a difference of naturals is an integer.
pub open spec fn sub_num_v(a: ValueV, b: ValueV) -> Option<ValueV> {
    if a is Nat && b is Nat {
        let s = a->Nat_0 - b->Nat_0;
        if i64::MIN <= s <= i64::MAX {
            Some(ValueV::Int(s))
        } else {
            None
        }
    } else if !num_ok_v(a) || !num_ok_v(b) {
        None
    } else if a is Ratio || b is Ratio {
        let n = num_n(a) * (num_d(b) as int) - num_n(b) * (num_d(a) as int);
        if -rat_mid_max() <= n <= rat_mid_max() {
            norm_ratio_v(n, num_d(a) * num_d(b))
        } else {
            None
        }
    } else {
        let s = num_n(a) - num_n(b);
        if i64::MIN <= s <= i64::MAX {
            Some(ValueV::Int(s))
        } else {
            None
        }
    }
}

/// Multiplication on numbers.
pub open spec fn mul_num_v(a: ValueV, b: ValueV) -> Option<ValueV> {
    if a is Nat && b is Nat {
        let p = a->Nat_0 * b->Nat_0;
        if p <= u64::MAX {
            Some(ValueV::Nat(p))
        } else {
            None
        }
    } else if !num_ok_v(a) || !num_ok_v(b) {
        None
    } else if a is Ratio || b is Ratio {
        norm_ratio_v(num_n(a) * num_n(b), num_d(a) * num_d(b))
    } else {
        let p = num_n(a) * num_n(b);
        if i64::MIN <= p <= i64::MAX {
            Some(ValueV::Int(p))
        } else {
            None
        }
    }
}

/// Division on numbers always yields a rational; division by zero is
/// undefined.
pub open spec fn div_num_v(a: ValueV, b: ValueV) -> Option<ValueV> {
    if !num_ok_v(a) || !num_ok_v(b) || num_n(b) == 0 {
        None
    } else {
        let bn = num_n(b);
        let n0 = num_n(a) * (num_d(b) as int);
        let n = if bn < 0 {
            -n0
        } else {
            n0
        };
        let d = ((if bn < 0 {
            -bn
        } else {
            bn
        }) * (num_d(a) as int)) as nat;
        norm_ratio_v(n, d)
    }
}

/// Order comparison on numbers: the sign of `a - b` as rationals.
pub open spec fn cmp_gt_v(a: ValueV, b: ValueV) -> Option<bool> {
    if a is Nat && b is Nat {
        Some(a->Nat_0 > b->Nat_0)
    } else if !num_ok_v(a) || !num_ok_v(b) {
        None
    } else {
        Some(num_n(a) * (num_d(b) as int) > num_n(b) * (num_d(a) as int))
    }
}

pub open spec fn cmp_ge_v(a: ValueV, b: ValueV) -> Option<bool> {
    if a is Nat && b is Nat {
        Some(a->Nat_0 >= b->Nat_0)
    } else if !num_ok_v(a) || !num_ok_v(b) {
        None
    } else {
        Some(num_n(a) * (num_d(b) as int) >= num_n(b) * (num_d(a) as int))
    }
}

pub open spec fn is_unit_v(v: ValueV) -> bool {
    v is NoneVal || v is NotImplemented || v is Ellipsis || v is Inf
}

pub open spec fn unit_same_v(a: ValueV, b: ValueV) -> bool {
    (a is NoneVal && b is NoneVal) || (a is NotImplemented && b is NotImplemented) || (
    a is Ellipsis && b is Ellipsis) || (a is Inf && b is Inf)
}

/// Equality on values, where it is decided: numbers compare as
/// rationals, strings, booleans, reified types, arrays and records
/// compare structurally, and the unit-like constants compare by
/// identity of their kind.
pub open spec fn eq_v(a: ValueV, b: ValueV) -> Option<bool> {
    if a is Nat && b is Nat {
        Some(a->Nat_0 == b->Nat_0)
    } else if is_num_v(a) && is_num_v(b) {
        if !num_ok_v(a) || !num_ok_v(b) {
            None
        } else {
            Some(num_n(a) * (num_d(b) as int) == num_n(b) * (num_d(a) as int))
        }
    } else if a is Str && b is Str {
        Some(a->Str_0 == b->Str_0)
    } else if a is Bool && b is Bool {
        Some(a->Bool_0 == b->Bool_0)
    } else if is_unit_v(a) && is_unit_v(b) {
        Some(unit_same_v(a, b))
    } else if a is Type && b is Type {
        Some(a->Type_0 == b->Type_0)
    } else if a is Array && b is Array {
        Some(a->Array_0 == b->Array_0)
    } else if a is Record && b is Record {
        Some(a->Record_0 == b->Record_0)
    } else {
        None
    }
}

/// The partial binary operation on values, per operator.
pub open spec fn try_bin_v(op: OpKind, a: ValueV, b: ValueV) -> Option<ValueV> {
    match op {
        OpKind::Add => if a is Str && b is Str {
            Some(ValueV::Str(a->Str_0 + b->Str_0))
        } else if a is Array && b is Array {
            Some(ValueV::Array(a->Array_0 + b->Array_0))
        } else if is_num_v(a) && is_num_v(b) {
            add_num_v(a, b)
        } else {
            None
        },
        OpKind::Sub => if is_num_v(a) && is_num_v(b) {
            sub_num_v(a, b)
        } else {
            None
        },
        OpKind::Mul => if is_num_v(a) && is_num_v(b) {
            mul_num_v(a, b)
        } else {
            None
        },
        OpKind::Div => if is_num_v(a) && is_num_v(b) {
            div_num_v(a, b)
        } else {
            None
        },
        OpKind::Gt => if is_num_v(a) && is_num_v(b) {
            match cmp_gt_v(a, b) {
                Some(x) => Some(ValueV::Bool(x)),
                None => None,
            }
        } else {
            None
        },
        OpKind::Ge => if is_num_v(a) && is_num_v(b) {
            match cmp_ge_v(a, b) {
                Some(x) => Some(ValueV::Bool(x)),
                None => None,
            }
        } else {
            None
        },
        OpKind::Eq => match eq_v(a, b) {
            Some(x) => Some(ValueV::Bool(x)),
            None => None,
        },
        OpKind::Ne => match eq_v(a, b) {
            Some(x) => Some(ValueV::Bool(!x)),
            None => None,
        },
        _ => None,
    }
}

/// The partial unary operation on values: only mutation is defined,
/// wrapping the operand in a fresh cell.
pub open spec fn try_unary_v(op: OpKind, v: ValueV) -> Option<ValueV> {
    match op {
        OpKind::Mutate => Some(ValueV::Mut(Box::new(v))),
        _ => None,
    }
}

// ---------------------------------------------------------------------
// Executable arithmetic.
// ---------------------------------------------------------------------

fn is_num(v: &Value) -> (r: bool)
    ensures
        r == is_num_v(value_view(*v)),
{
    matches!(v, Value::Int(_) | Value::Nat(_) | Value::Ratio { .. })
}

fn num_ok(v: &Value) -> (r: bool)
    ensures
        r == num_ok_v(value_view(*v)),
{
    match v {
        Value::Nat(n) => *n <= i64::MAX as u64,
        Value::Ratio { den, .. } => *den >= 1,
        _ => true,
    }
}

/// The numerator and denominator of a number whose numerator fits the
/// signed range, widened for exact intermediate arithmetic.
fn num_parts(v: &Value) -> (r: (i128, u128))
    requires
        is_num_v(value_view(*v)),
        num_ok_v(value_view(*v)),
    ensures
        r.0 as int == num_n(value_view(*v)),
        r.1 as nat == num_d(value_view(*v)),
        -0x8000_0000_0000_0000i128 <= r.0 <= i64::MAX as i128,
        1 <= r.1 <= u64::MAX as u128,
{
    match v {
        Value::Int(n) => (*n as i128, 1),
        Value::Nat(n) => (*n as i128, 1),
        Value::Ratio { num, den } => (*num as i128, *den as u128),
        _ => {
            proof {
                assert(false);
            }
            (0, 1)
        },
    }
}

/// Builds the reduced rational `n / d`.
fn norm_ratio(n: i128, d: u128) -> (r: Option<Value>)
    requires
        -(i128::MAX as int) <= n as int,
        d >= 1,
    ensures
        match r {
            Some(v) => norm_ratio_v(n as int, d as nat) == Some(value_view(v)),
            None => norm_ratio_v(n as int, d as nat) is None,
        },
{
    let m: u128 = if n < 0 {
        (-n) as u128
    } else {
        n as u128
    };
    let g = gcd_u128(m, d);
    proof {
        lemma_gcd_pos(m as nat, d as nat);
    }
    let n2 = m / g;
    let d2 = d / g;
    if d2 <= u64::MAX as u128 && ((n >= 0 && n2 <= i64::MAX as u128) || (n < 0 && n2
        <= 0x8000_0000_0000_0000u128)) {
        let num: i64 = if n < 0 {
            if n2 == 0x8000_0000_0000_0000u128 {
                i64::MIN
            } else {
                -(n2 as i64)
            }
        } else {
            n2 as i64
        };
        Some(Value::Ratio { num, den: d2 as u64 })
    } else {
        None
    }
}

impl Value {
    /// The partial binary operation on values. This is total on the
    /// operand classes the type checker admits; a result of nothing
    /// past type checking is a compiler bug, not a user error.
    pub fn try_bin(op: OpKind, a: &Value, b: &Value) -> (r: Option<Value>)
        ensures
            match r {
                Some(v) => try_bin_v(op, value_view(*a), value_view(*b)) == Some(value_view(v)),
                None => try_bin_v(op, value_view(*a), value_view(*b)) is None,
            },
    {
        match op {
            OpKind::Add => {
                if let (Value::Str(x), Value::Str(y)) = (a, b) {
                    return Some(Value::Str(x.clone().concat(y.as_str())));
                }
                if let (Value::Array(x), Value::Array(y)) = (a, b) {
                    let mut out = values_dup(x);
                    let mut rest = values_dup(y);
                    proof {
                        lemma_values_view_concat(out@, rest@);
                    }
                    out.append(&mut rest);
                    return Some(Value::Array(out));
                }
                if is_num(a) && is_num(b) {
                    Value::bin_num(op, a, b)
                } else {
                    None
                }
            },
            OpKind::Sub | OpKind::Mul | OpKind::Div | OpKind::Gt | OpKind::Ge => {
                if is_num(a) && is_num(b) {
                    Value::bin_num(op, a, b)
                } else {
                    None
                }
            },
            OpKind::Eq => match Value::try_eq_bool(a, b) {
                Some(x) => Some(Value::Bool(x)),
                None => None,
            },
            OpKind::Ne => match Value::try_eq_bool(a, b) {
                Some(x) => Some(Value::Bool(!x)),
                None => None,
            },
            _ => None,
        }
    }

    /// Decides equality where it is defined.
    fn try_eq_bool(a: &Value, b: &Value) -> (r: Option<bool>)
        ensures
            r == eq_v(value_view(*a), value_view(*b)),
    {
        if let (Value::Nat(x), Value::Nat(y)) = (a, b) {
            return Some(*x == *y);
        }
        if is_num(a) && is_num(b) {
            if !num_ok(a) || !num_ok(b) {
                return None;
            }
            let (an, ad) = num_parts(a);
            let (bn, bd) = num_parts(b);
            proof {
                lemma_num_prod_fits(an as int, bd as nat);
                lemma_num_prod_fits(bn as int, ad as nat);
            }
            return Some(an * (bd as i128) == bn * (ad as i128));
        }
        match a {
            Value::Str(x) => match b {
                Value::Str(y) => Some(*x == *y),
                _ => None,
            },
            Value::Bool(x) => match b {
                Value::Bool(y) => Some(*x == *y),
                _ => None,
            },
            Value::NoneVal => match b {
                Value::NoneVal => Some(true),
                Value::NotImplemented | Value::Ellipsis | Value::Inf => Some(false),
                _ => None,
            },
            Value::NotImplemented => match b {
                Value::NotImplemented => Some(true),
                Value::NoneVal | Value::Ellipsis | Value::Inf => Some(false),
                _ => None,
            },
            Value::Ellipsis => match b {
                Value::Ellipsis => Some(true),
                Value::NoneVal | Value::NotImplemented | Value::Inf => Some(false),
                _ => None,
            },
            Value::Inf => match b {
                Value::Inf => Some(true),
                Value::NoneVal | Value::NotImplemented | Value::Ellipsis => Some(false),
                _ => None,
            },
            Value::Type(x) => match b {
                Value::Type(y) => Some(type_eq(x, y)),
                _ => None,
            },
            Value::Array(x) => match b {
                Value::Array(y) => Some(values_eq(x, y)),
                _ => None,
            },
            Value::Record(x) => match b {
                Value::Record(y) => Some(record_v_eq(x, y)),
                _ => None,
            },
            _ => None,
        }
    }

    /// The numeric core: both operands are numbers.
    fn bin_num(op: OpKind, a: &Value, b: &Value) -> (r: Option<Value>)
        requires
            is_num_v(value_view(*a)),
            is_num_v(value_view(*b)),
            op == OpKind::Add || op == OpKind::Sub || op == OpKind::Mul || op == OpKind::Div
                || op == OpKind::Gt || op == OpKind::Ge,
        ensures
            match r {
                Some(v) => try_bin_v(op, value_view(*a), value_view(*b)) == Some(value_view(v)),
                None => try_bin_v(op, value_view(*a), value_view(*b)) is None,
            },
    {
        if let (Value::Nat(xr), Value::Nat(yr)) = (a, b) {
            let x = *xr;
            let y = *yr;
            return match op {
                OpKind::Add => {
                    if x <= u64::MAX - y {
                        Some(Value::Nat(x + y))
                    } else {
                        None
                    }
                },
                OpKind::Sub => {
                    let s = (x as i128) - (y as i128);
                    if i64::MIN as i128 <= s && s <= i64::MAX as i128 {
                        Some(Value::Int(s as i64))
                    } else {
                        None
                    }
                },
                OpKind::Mul => {
                    proof {
                        assert((x as nat) * (y as nat) <= u128::MAX) by (nonlinear_arith)
                            requires
                                x <= u64::MAX,
                                y <= u64::MAX,
                        ;
                    }
                    let p = (x as u128) * (y as u128);
                    if p <= u64::MAX as u128 {
                        Some(Value::Nat(p as u64))
                    } else {
                        None
                    }
                },
                OpKind::Div => {
                    if !num_ok(a) || !num_ok(b) || y == 0 {
                        None
                    } else {
                        norm_ratio(x as i128, y as u128)
                    }
                },
                OpKind::Gt => Some(Value::Bool(x > y)),
                OpKind::Ge => Some(Value::Bool(x >= y)),
                _ => None,
            };
        }
        if !num_ok(a) || !num_ok(b) {
            return None;
        }
        let (an, ad) = num_parts(a);
        let (bn, bd) = num_parts(b);
        proof {
            lemma_num_prod_fits(an as int, bd as nat);
            lemma_num_prod_fits(bn as int, ad as nat);
            lemma_den_prod_fits(ad as nat, bd as nat);
        }
        let any_ratio = matches!(a, Value::Ratio { .. }) || matches!(b, Value::Ratio { .. });
        match op {
            OpKind::Add => {
                if any_ratio {
                    let x = an * (bd as i128);
                    let y = bn * (ad as i128);
                    if (x > 0 && y > i128::MAX - x) || (x < 0 && y < -i128::MAX - x) {
                        None
                    } else {
                        norm_ratio(x + y, ad * bd)
                    }
                } else {
                    let s = an + bn;
                    if i64::MIN as i128 <= s && s <= i64::MAX as i128 {
                        Some(Value::Int(s as i64))
                    } else {
                        None
                    }
                }
            },
            OpKind::Sub => {
                if any_ratio {
                    let x = an * (bd as i128);
                    let y = bn * (ad as i128);
                    if (x >= 0 && y < x - i128::MAX) || (x < 0 && y > x + i128::MAX) {
                        None
                    } else {
                        norm_ratio(x - y, ad * bd)
                    }
                } else {
                    let s = an - bn;
                    if i64::MIN as i128 <= s && s <= i64::MAX as i128 {
                        Some(Value::Int(s as i64))
                    } else {
                        None
                    }
                }
            },
            OpKind::Mul => {
                proof {
                    lemma_num_num_prod_fits(an as int, bn as int);
                }
                if any_ratio {
                    norm_ratio(an * bn, ad * bd)
                } else {
                    let p = an * bn;
                    if i64::MIN as i128 <= p && p <= i64::MAX as i128 {
                        Some(Value::Int(p as i64))
                    } else {
                        None
                    }
                }
            },
            OpKind::Div => {
                if bn == 0 {
                    None
                } else {
                    let n0 = an * (bd as i128);
                    let n = if bn < 0 {
                        -n0
                    } else {
                        n0
                    };
                    let babs: i128 = if bn < 0 {
                        -bn
                    } else {
                        bn
                    };
                    proof {
                        lemma_den_prod_fits(babs as nat, ad as nat);
                    }
                    let d = (babs as u128) * (ad as u128);
                    norm_ratio(n, d)
                }
            },
            OpKind::Gt => Some(Value::Bool(an * (bd as i128) > bn * (ad as i128))),
            OpKind::Ge => Some(Value::Bool(an * (bd as i128) >= bn * (ad as i128))),
            _ => None,
        }
    }

    /// The partial unary operation: mutation wraps its operand in a
    /// fresh cell.
    pub fn try_unary(op: OpKind, v: Value) -> (r: Option<Value>)
        ensures
            match r {
                Some(out) => try_unary_v(op, value_view(v)) == Some(value_view(out)),
                None => try_unary_v(op, value_view(v)) is None,
            },
    {
        match op {
            OpKind::Mutate => Some(Value::Mut(Box::new(v))),
            _ => None,
        }
    }
}

/// A signed numerator times a denominator stays within the widened range.
proof fn lemma_num_prod_fits(n: int, d: nat)
    requires
        -0x8000_0000_0000_0000 <= n <= i64::MAX,
        1 <= d <= u64::MAX,
    ensures
        -(i128::MAX as int) <= n * d <= i128::MAX as int,
{
    assert(-(i128::MAX as int) <= n * d <= i128::MAX as int) by (nonlinear_arith)
        requires
            -0x8000_0000_0000_0000 <= n <= i64::MAX,
            1 <= d <= u64::MAX,
    ;
}

/// Two signed numerators multiply within the widened range.
proof fn lemma_num_num_prod_fits(a: int, b: int)
    requires
        -0x8000_0000_0000_0000 <= a <= i64::MAX,
        -0x8000_0000_0000_0000 <= b <= i64::MAX,
    ensures
        -(i128::MAX as int) <= a * b <= i128::MAX as int,
{
    assert(-(i128::MAX as int) <= a * b <= i128::MAX as int) by (nonlinear_arith)
        requires
            -0x8000_0000_0000_0000 <= a <= i64::MAX,
            -0x8000_0000_0000_0000 <= b <= i64::MAX,
    ;
}

/// Two denominators multiply within the unsigned widened range.
proof fn lemma_den_prod_fits(a: nat, b: nat)
    requires
        a <= u64::MAX,
        b <= u64::MAX,
    ensures
        a * b <= u128::MAX,
        a >= 1 && b >= 1 ==> a * b >= 1,
{
    assert(a * b <= u128::MAX && (a >= 1 && b >= 1 ==> a * b >= 1)) by (nonlinear_arith)
        requires
            a <= u64::MAX,
            b <= u64::MAX,
    ;
}


/// Builds the reduced rational with an explicit sign, for literal
/// parsing: `m / d`, negated when asked.
pub fn norm_ratio_signed(m: u64, d: u64, neg: bool) -> (r: Option<Value>)
    requires
        d >= 1,
    ensures
        match r {
            Some(v) => norm_ratio_v(if neg { -(m as int) } else { m as int }, d as nat) == Some(
                value_view(v),
            ),
            None => norm_ratio_v(if neg { -(m as int) } else { m as int }, d as nat) is None,
        },
{
    let n: i128 = if neg {
        -(m as i128)
    } else {
        m as i128
    };
    norm_ratio(n, d as u128)
}

} // verus!
