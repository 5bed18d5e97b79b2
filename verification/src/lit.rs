//! Parsing literal token text into canonical values.
//!
//! The token kind chooses a ground type; the token content is parsed
//! into that type's canonical representation. Malformed or out-of-range
//! content yields nothing; the lexer guarantees well-formed content, so
//! the evaluator treats such content as ruled out by precondition.

use vstd::prelude::*;
use crate::value::{Value, ValueV, value_view};
use crate::ty::{Type, TypeV, type_view};
use crate::arith::norm_ratio_v;

verus! {

pub open spec fn is_digit(c: char) -> bool {
    '0' <= c <= '9'
}

pub open spec fn digit_val(c: char) -> nat {
    ((c as int) - ('0' as int)) as nat
}

/// The value of a digit string, reading left to right, bounded by the
/// machine range; nothing for empty, non-digit or out-of-range text.
pub open spec fn parse_digits(s: Seq<char>) -> Option<nat>
    decreases s.len(),
{
    if s.len() == 0 {
        None
    } else if !is_digit(s.last()) {
        None
    } else if s.len() == 1 {
        Some(digit_val(s.last()))
    } else {
        match parse_digits(s.drop_last()) {
            Some(v) => if 10 * v + digit_val(s.last()) <= u64::MAX {
                Some(10 * v + digit_val(s.last()))
            } else {
                None
            },
            None => None,
        }
    }
}

/// Ten to the `k`, while it fits the machine range.
pub open spec fn pow10_cap(k: nat) -> Option<nat>
    decreases k,
{
    if k == 0 {
        Some(1)
    } else {
        match pow10_cap((k - 1) as nat) {
            Some(v) => if 10 * v <= u64::MAX {
                Some(10 * v)
            } else {
                None
            },
            None => None,
        }
    }
}

/// The index of the first dot in the text, if any.
pub open spec fn first_dot(s: Seq<char>) -> Option<int>
    decreases s.len(),
{
    if s.len() == 0 {
        None
    } else if s[0] == '.' {
        Some(0)
    } else {
        match first_dot(s.drop_first()) {
            Some(i) => Some(i + 1),
            None => None,
        }
    }
}

/// The canonical value of literal text under a ground type: naturals
/// and integers in decimal, rationals as two digit runs around a dot
/// (reduced over a power-of-ten denominator), strings between double
/// quotes, booleans spelt `True` and `False`, and the unit-like
/// constants regardless of their text.
pub open spec fn lit_value_v(t: TypeV, s: Seq<char>) -> Option<ValueV> {
    match t {
        TypeV::Nat => match parse_digits(s) {
            Some(n) => Some(ValueV::Nat(n)),
            None => None,
        },
        TypeV::Int => if s.len() > 0 && s[0] == '-' {
            match parse_digits(s.drop_first()) {
                Some(n) => if n <= 0x8000_0000_0000_0000 {
                    Some(ValueV::Int(-(n as int)))
                } else {
                    None
                },
                None => None,
            }
        } else {
            match parse_digits(s) {
                Some(n) => if n <= i64::MAX {
                    Some(ValueV::Int(n as int))
                } else {
                    None
                },
                None => None,
            }
        },
        TypeV::Ratio => {
            let neg = s.len() > 0 && s[0] == '-';
            let body = if neg {
                s.drop_first()
            } else {
                s
            };
            match first_dot(body) {
                Some(k) => {
                    let ip = body.subrange(0, k);
                    let fp = body.subrange(k + 1, body.len() as int);
                    if ip.len() == 0 || fp.len() == 0 {
                        None
                    } else {
                        match (parse_digits(ip + fp), pow10_cap(fp.len())) {
                            (Some(m), Some(d)) => norm_ratio_v(
                                if neg {
                                    -(m as int)
                                } else {
                                    m as int
                                },
                                d,
                            ),
                            _ => None,
                        }
                    }
                },
                None => None,
            }
        },
        TypeV::Str => if s.len() >= 2 && s[0] == '"' && s.last() == '"' {
            Some(ValueV::Str(s.subrange(1, s.len() - 1)))
        } else {
            None
        },
        TypeV::Bool => if s == "True"@ {
            Some(ValueV::Bool(true))
        } else if s == "False"@ {
            Some(ValueV::Bool(false))
        } else {
            None
        },
        TypeV::NoneType => Some(ValueV::NoneVal),
        TypeV::NotImplemented => Some(ValueV::NotImplemented),
        TypeV::Ellipsis => Some(ValueV::Ellipsis),
        TypeV::Inf => Some(ValueV::Inf),
        _ => None,
    }
}

/// Parses a run of digits, continuing from an accumulator state; the
/// state and result follow `parse_digits` over the prefix seen so far.
#[verifier::loop_isolation(false)]
fn parse_digits_range(s: &str, from: usize, to: usize, start: Option<u64>, pre: Ghost<Seq<char>>) -> (r: Option<u64>)
    requires
        from <= to <= s@.len(),
        match start {
            Some(v) => parse_digits(pre@) == Some(v as nat),
            None => pre@.len() > 0 && parse_digits(pre@) is None,
        },
    ensures
        match r {
            Some(v) => parse_digits(pre@ + s@.subrange(from as int, to as int)) == Some(v as nat),
            None => (pre@ + s@.subrange(from as int, to as int)).len() > 0 && parse_digits(
                pre@ + s@.subrange(from as int, to as int),
            ) is None,
        },
{
    let mut acc = start;
    let mut i = from;
    proof {
        assert(pre@ + s@.subrange(from as int, from as int) =~= pre@);
    }
    while i < to
        invariant
            from <= i <= to,
            match acc {
                Some(v) => parse_digits(pre@ + s@.subrange(from as int, i as int)) == Some(
                    v as nat,
                ),
                None => (pre@ + s@.subrange(from as int, i as int)).len() > 0 && parse_digits(
                    pre@ + s@.subrange(from as int, i as int),
                ) is None,
            },
        decreases to - i,
    {
        let c = s.get_char(i);
        let ghost whole = pre@ + s@.subrange(from as int, i as int + 1);
        proof {
            assert(whole.drop_last() =~= pre@ + s@.subrange(from as int, i as int));
            assert(whole.last() == s@[i as int]);
        }
        acc = match acc {
            Some(v) => {
                if '0' <= c && c <= '9' {
                    let d = (c as u32 as u64) - ('0' as u32 as u64);
                    if v <= (u64::MAX - d) / 10 {
                        Some(10 * v + d)
                    } else {
                        None
                    }
                } else {
                    None
                }
            },
            None => None,
        };
        i = i + 1;
    }
    proof {
        assert(pre@ + s@.subrange(from as int, to as int) =~= pre@ + s@.subrange(
            from as int,
            i as int,
        ));
    }
    acc
}

/// Parses one digit run `s[from..to]` as a bounded natural.
#[verifier::loop_isolation(false)]
fn parse_digits_u64(s: &str, from: usize, to: usize) -> (r: Option<u64>)
    requires
        from <= to <= s@.len(),
    ensures
        match r {
            Some(v) => parse_digits(s@.subrange(from as int, to as int)) == Some(v as nat),
            None => parse_digits(s@.subrange(from as int, to as int)) is None,
        },
{
    if from == to {
        proof {
            assert(s@.subrange(from as int, to as int) =~= Seq::<char>::empty());
        }
        return None;
    }
    let c = s.get_char(from);
    if !('0' <= c && c <= '9') {
        proof {
            lemma_parse_digits_first_bad(s@.subrange(from as int, to as int));
        }
        return None;
    }
    let d = (c as u32 as u64) - ('0' as u32 as u64);
    let ghost pre = s@.subrange(from as int, from as int + 1);
    proof {
        assert(pre.len() == 1 && pre.last() == s@[from as int]);
    }
    let r = parse_digits_range(s, from + 1, to, Some(d), Ghost(pre));
    proof {
        assert(pre + s@.subrange(from as int + 1, to as int) =~= s@.subrange(
            from as int,
            to as int,
        ));
    }
    r
}

/// If the first character is not a digit, no digit run parses.
proof fn lemma_parse_digits_first_bad(s: Seq<char>)
    requires
        s.len() > 0,
        !is_digit(s[0]),
    ensures
        parse_digits(s) is None,
    decreases s.len(),
{
    if s.len() > 1 {
        assert(s.drop_last()[0] == s[0]);
        lemma_parse_digits_first_bad(s.drop_last());
    }
}

/// Ten to the `k`, while it fits.
fn pow10_u64(k: usize) -> (r: Option<u64>)
    ensures
        match r {
            Some(v) => pow10_cap(k as nat) == Some(v as nat) && v >= 1,
            None => pow10_cap(k as nat) is None,
        },
{
    let mut acc: Option<u64> = Some(1);
    let mut i: usize = 0;
    while i < k
        invariant
            i <= k,
            match acc {
                Some(v) => pow10_cap(i as nat) == Some(v as nat) && v >= 1,
                None => pow10_cap(i as nat) is None,
            },
        decreases k - i,
    {
        acc = match acc {
            Some(v) => {
                if v <= u64::MAX / 10 {
                    Some(10 * v)
                } else {
                    None
                }
            },
            None => None,
        };
        proof {
            if pow10_cap(i as nat) is None {
                assert(pow10_cap(i as nat + 1) is None);
            }
        }
        i = i + 1;
    }
    acc
}

/// The position of the first dot in `s[from..]`, if any.
#[verifier::loop_isolation(false)]
fn find_dot(s: &str, from: usize) -> (r: Option<usize>)
    requires
        from <= s@.len(),
    ensures
        match r {
            Some(i) => from <= i < s@.len() && first_dot(s@.subrange(from as int, s@.len() as int))
                == Some(i - from),
            None => first_dot(s@.subrange(from as int, s@.len() as int)) is None,
        },
{
    let n = s.unicode_len();
    let mut i = from;
    while i < n
        invariant
            from <= i <= n,
            n == s@.len(),
            forall|j: int| from <= j < i ==> s@[j] != '.',
        decreases n - i,
    {
        if s.get_char(i) == '.' {
            proof {
                lemma_first_dot_at(s@.subrange(from as int, s@.len() as int), i - from);
            }
            return Some(i);
        }
        i = i + 1;
    }
    proof {
        lemma_first_dot_missing(s@.subrange(from as int, s@.len() as int));
    }
    None
}

/// A dot at position `k`, with none before it, is the first dot.
proof fn lemma_first_dot_at(s: Seq<char>, k: int)
    requires
        0 <= k < s.len(),
        s[k] == '.',
        forall|j: int| 0 <= j < k ==> s[j] != '.',
    ensures
        first_dot(s) == Some(k),
    decreases s.len(),
{
    if k > 0 {
        assert(s[0] != '.');
        lemma_first_dot_at(s.drop_first(), k - 1);
    }
}

/// Without any dot there is no first dot.
proof fn lemma_first_dot_missing(s: Seq<char>)
    requires
        forall|j: int| 0 <= j < s.len() ==> s[j] != '.',
    ensures
        first_dot(s) is None,
    decreases s.len(),
{
    if s.len() > 0 {
        lemma_first_dot_missing(s.drop_first());
    }
}

impl Value {
    /// Parses literal text into the canonical value of a ground type.
    pub fn from_str(t: &Type, content: &String) -> (r: Option<Value>)
        ensures
            match r {
                Some(v) => lit_value_v(type_view(*t), content@) == Some(value_view(v)),
                None => lit_value_v(type_view(*t), content@) is None,
            },
    {
        let s = content.as_str();
        let n = s.unicode_len();
        match t {
            Type::Nat => match parse_digits_u64(s, 0, n) {
                Some(v) => {
                    proof {
                        assert(s@.subrange(0, n as int) =~= s@);
                    }
                    Some(Value::Nat(v))
                },
                None => {
                    proof {
                        assert(s@.subrange(0, n as int) =~= s@);
                    }
                    None
                },
            },
            Type::Int => {
                if n > 0 && s.get_char(0) == '-' {
                    match parse_digits_u64(s, 1, n) {
                        Some(v) => {
                            proof {
                                assert(s@.subrange(1, n as int) =~= s@.drop_first());
                            }
                            if v <= 0x8000_0000_0000_0000u64 {
                                let out: i64 = if v == 0x8000_0000_0000_0000u64 {
                                    i64::MIN
                                } else {
                                    -(v as i64)
                                };
                                Some(Value::Int(out))
                            } else {
                                None
                            }
                        },
                        None => {
                            proof {
                                assert(s@.subrange(1, n as int) =~= s@.drop_first());
                            }
                            None
                        },
                    }
                } else {
                    match parse_digits_u64(s, 0, n) {
                        Some(v) => {
                            proof {
                                assert(s@.subrange(0, n as int) =~= s@);
                            }
                            if v <= i64::MAX as u64 {
                                Some(Value::Int(v as i64))
                            } else {
                                None
                            }
                        },
                        None => {
                            proof {
                                assert(s@.subrange(0, n as int) =~= s@);
                            }
                            None
                        },
                    }
                }
            },
            Type::Ratio => Value::ratio_from_str(s, n),
            Type::Str => {
                if n >= 2 && s.get_char(0) == '"' && s.get_char(n - 1) == '"' {
                    let mid = s.substring_char(1, n - 1).to_owned();
                    Some(Value::Str(mid))
                } else {
                    None
                }
            },
            Type::Bool => {
                let t_lit = "True".to_owned();
                let f_lit = "False".to_owned();
                if *content == t_lit {
                    Some(Value::Bool(true))
                } else if *content == f_lit {
                    Some(Value::Bool(false))
                } else {
                    None
                }
            },
            Type::NoneType => Some(Value::NoneVal),
            Type::NotImplemented => Some(Value::NotImplemented),
            Type::Ellipsis => Some(Value::Ellipsis),
            Type::Inf => Some(Value::Inf),
            _ => None,
        }
    }

    /// Parses rational literal text: a sign, digits, a dot, digits.
    fn ratio_from_str(s: &str, n: usize) -> (r: Option<Value>)
        requires
            n == s@.len(),
        ensures
            match r {
                Some(v) => lit_value_v(TypeV::Ratio, s@) == Some(value_view(v)),
                None => lit_value_v(TypeV::Ratio, s@) is None,
            },
    {
        let neg = n > 0 && s.get_char(0) == '-';
        let start: usize = if neg {
            1
        } else {
            0
        };
        let ghost body = if neg {
            s@.drop_first()
        } else {
            s@
        };
        proof {
            assert(body =~= s@.subrange(start as int, n as int));
        }
        match find_dot(s, start) {
            Some(k) => {
                if k == start || k + 1 == n {
                    proof {
                        assert(body.subrange(0, k - start).len() == 0 || body.subrange(
                            k - start + 1,
                            body.len() as int,
                        ).len() == 0);
                    }
                    return None;
                }
                let ip = parse_digits_u64(s, start, k);
                let ghost ipseq = body.subrange(0, k - start);
                let ghost fpseq = body.subrange(k - start + 1, body.len() as int);
                proof {
                    assert(ipseq =~= s@.subrange(start as int, k as int));
                    assert(fpseq =~= s@.subrange(k as int + 1, n as int));
                }
                match ip {
                    Some(v0) => {
                        let m = parse_digits_range(s, k + 1, n, Some(v0), Ghost(ipseq));
                        proof {
                            assert(ipseq + s@.subrange(k as int + 1, n as int) =~= ipseq + fpseq);
                        }
                        let d = pow10_u64(n - (k + 1));
                        proof {
                            assert(fpseq.len() == n - (k + 1));
                        }
                        match (m, d) {
                            (Some(mv), Some(dv)) => {
                                if neg {
                                    crate::arith::norm_ratio_signed(mv, dv, true)
                                } else {
                                    crate::arith::norm_ratio_signed(mv, dv, false)
                                }
                            },
                            _ => None,
                        }
                    },
                    None => {
                        proof {
                            lemma_parse_digits_concat_none(ipseq, fpseq);
                        }
                        None
                    },
                }
            },
            None => {
                proof {
                    assert(first_dot(body) is None);
                }
                None
            },
        }
    }
}

/// A run whose digit prefix fails to parse fails as a whole.
proof fn lemma_parse_digits_concat_none(a: Seq<char>, b: Seq<char>)
    requires
        a.len() > 0,
        parse_digits(a) is None,
    ensures
        parse_digits(a + b) is None,
    decreases b.len(),
{
    if b.len() == 0 {
        assert(a + b =~= a);
    } else {
        lemma_parse_digits_concat_none(a, b.drop_last());
        assert((a + b).drop_last() =~= a + b.drop_last());
        assert((a + b).len() > 1);
    }
}

} // verus!
