//! Compile-time values.
//!
//! `Value` is the tagged sum the evaluator produces: integers, naturals,
//! rationals, strings, booleans, the unit-like constants, shared arrays,
//! ordered records, reified types, subroutines, and the mutable cell.
//! Cells are the only source of compile-time mutation; every other value
//! is structurally immutable. The evaluator never writes through a cell:
//! it reads the interior and re-wraps results in fresh cells.
//!
//! Rationals are kept reduced: a positive denominator and no common
//! factor with the numerator.

use vstd::prelude::*;
use crate::ast::{Block, ParamsSig};
use crate::ty::{OpKind, Type, TypeV, type_view};

verus! {

/// Whether a name is visible outside its scope.
#[derive(Clone, Copy, Debug, PartialEq, Eq, Structural)]
pub enum Visibility {
    Private,
    Public,
}

/// A record key: a visibility and a name.
#[derive(Debug)]
pub struct Field {
    pub vis: Visibility,
    pub name: String,
}

/// The ghost mirror of a field.
#[verifier::ext_equal]
pub ghost struct FieldV {
    pub vis: Visibility,
    pub name: Seq<char>,
}

pub open spec fn field_view(f: Field) -> FieldV {
    FieldV { vis: f.vis, name: f.name@ }
}

impl Field {
    /// Builds a field key.
    pub fn new(vis: Visibility, name: String) -> (r: Field)
        ensures
            field_view(r) == (FieldV { vis, name: name@ }),
    {
        Field { vis, name }
    }
}

/// The behaviour of a native compile-time subroutine. Natives are
/// registered by the host; they apply the evaluator's own partial
/// operator semantics to their arguments.
#[derive(Clone, Copy, Debug, PartialEq, Eq, Structural)]
pub enum NativeOp {
    /// Applies a binary operator to two positional arguments.
    Bin(OpKind),
    /// Applies a unary operator to one positional argument.
    Unary(OpKind),
}

/// A native compile-time subroutine.
#[derive(Debug)]
pub struct BuiltinConstSubr {
    pub name: String,
    pub op: NativeOp,
}

/// A user-defined compile-time subroutine: its parameters and body as
/// syntax, and its two derived types (see the lambda evaluation rules).
#[derive(Debug)]
pub struct UserConstSubr {
    pub name: String,
    pub params: ParamsSig,
    pub block: Block,
    pub sig_t: Type,
    pub as_type: Option<Type>,
}

/// A compile-time subroutine value.
#[derive(Debug)]
pub enum ConstSubr {
    User(UserConstSubr),
    Builtin(BuiltinConstSubr),
}

/// A compile-time value.
#[derive(Debug)]
pub enum Value {
    Int(i64),
    Nat(u64),
    /// A reduced rational: `num / den` with `den > 0`.
    Ratio { num: i64, den: u64 },
    Str(String),
    Bool(bool),
    NoneVal,
    NotImplemented,
    Ellipsis,
    Inf,
    /// A shared immutable vector.
    Array(Vec<Value>),
    /// An ordered association from field to value.
    Record(Vec<(Field, Value)>),
    /// A reified type.
    Type(Box<Type>),
    /// A subroutine.
    Subr(Box<ConstSubr>),
    /// A mutable cell.
    Mut(Box<Value>),
}

/// Evaluated call arguments: positional, then keyword.
#[derive(Debug)]
pub struct ValueArgs {
    pub pos_args: Vec<Value>,
    pub kw_args: Vec<(String, Value)>,
}

impl ValueArgs {
    /// Builds an argument record.
    pub fn new(pos_args: Vec<Value>, kw_args: Vec<(String, Value)>) -> (r: ValueArgs)
        ensures
            r.pos_args@ == pos_args@,
            r.kw_args@ == kw_args@,
    {
        ValueArgs { pos_args, kw_args }
    }
}

// ---------------------------------------------------------------------
// Ghost mirrors.
// ---------------------------------------------------------------------

/// The ghost mirror of a subroutine value. A user subroutine is mirrored
/// by its name and its two derived types; its syntax is carried by the
/// executable value but is not part of the mathematical model, because
/// calling user subroutines is reserved and nothing observes their body.
#[verifier::ext_equal]
pub ghost enum ConstSubrV {
    User { name: Seq<char>, sig_t: TypeV, as_type: Option<TypeV> },
    Builtin { name: Seq<char>, op: NativeOp },
}

#[verifier::ext_equal]
pub ghost enum ValueV {
    Int(int),
    Nat(nat),
    Ratio { num: int, den: nat },
    Str(Seq<char>),
    Bool(bool),
    NoneVal,
    NotImplemented,
    Ellipsis,
    Inf,
    Array(Seq<ValueV>),
    Record(Seq<(FieldV, ValueV)>),
    Type(Box<TypeV>),
    Subr(ConstSubrV),
    Mut(Box<ValueV>),
}

#[verifier::ext_equal]
pub ghost struct ValueArgsV {
    pub pos_args: Seq<ValueV>,
    pub kw_args: Seq<(Seq<char>, ValueV)>,
}

// ---------------------------------------------------------------------
// Views.
// ---------------------------------------------------------------------

pub open spec fn constsubr_view(s: ConstSubr) -> ConstSubrV
    decreases s,
{
    match s {
        ConstSubr::User(u) => ConstSubrV::User {
            name: u.name@,
            sig_t: type_view(u.sig_t),
            as_type: match u.as_type {
                Some(t) => Some(type_view(t)),
                None => None,
            },
        },
        ConstSubr::Builtin(b) => ConstSubrV::Builtin { name: b.name@, op: b.op },
    }
}

pub open spec fn value_view(v: Value) -> ValueV
    decreases v,
{
    match v {
        Value::Int(n) => ValueV::Int(n as int),
        Value::Nat(n) => ValueV::Nat(n as nat),
        Value::Ratio { num, den } => ValueV::Ratio { num: num as int, den: den as nat },
        Value::Str(s) => ValueV::Str(s@),
        Value::Bool(b) => ValueV::Bool(b),
        Value::NoneVal => ValueV::NoneVal,
        Value::NotImplemented => ValueV::NotImplemented,
        Value::Ellipsis => ValueV::Ellipsis,
        Value::Inf => ValueV::Inf,
        Value::Array(elems) => ValueV::Array(values_view(elems@)),
        Value::Record(attrs) => ValueV::Record(record_v_view(attrs@)),
        Value::Type(t) => ValueV::Type(Box::new(type_view(*t))),
        Value::Subr(s) => ValueV::Subr(constsubr_view(*s)),
        Value::Mut(inner) => ValueV::Mut(Box::new(value_view(*inner))),
    }
}

pub open spec fn values_view(s: Seq<Value>) -> Seq<ValueV>
    decreases s,
{
    if s.len() == 0 {
        Seq::empty()
    } else {
        values_view(s.drop_last()).push(value_view(s.last()))
    }
}

pub open spec fn record_v_view(s: Seq<(Field, Value)>) -> Seq<(FieldV, ValueV)>
    decreases s,
{
    if s.len() == 0 {
        Seq::empty()
    } else {
        record_v_view(s.drop_last()).push((field_view(s.last().0), value_view(s.last().1)))
    }
}

pub open spec fn kw_values_view(s: Seq<(String, Value)>) -> Seq<(Seq<char>, ValueV)>
    decreases s,
{
    if s.len() == 0 {
        Seq::empty()
    } else {
        kw_values_view(s.drop_last()).push((s.last().0@, value_view(s.last().1)))
    }
}

pub open spec fn valueargs_view(a: ValueArgs) -> ValueArgsV {
    ValueArgsV { pos_args: values_view(a.pos_args@), kw_args: kw_values_view(a.kw_args@) }
}

// ---------------------------------------------------------------------
// Lemmas about the sequence views.
// ---------------------------------------------------------------------

pub proof fn lemma_values_view(s: Seq<Value>)
    ensures
        values_view(s).len() == s.len(),
        forall|i: int| 0 <= i < s.len() ==> values_view(s)[i] == value_view(s[i]),
    decreases s,
{
    if s.len() > 0 {
        lemma_values_view(s.drop_last());
    }
}

pub proof fn lemma_record_v_view(s: Seq<(Field, Value)>)
    ensures
        record_v_view(s).len() == s.len(),
        forall|i: int| 0 <= i < s.len() ==> record_v_view(s)[i] == (
        field_view(s[i].0),
        value_view(s[i].1),
        ),
    decreases s,
{
    if s.len() > 0 {
        lemma_record_v_view(s.drop_last());
    }
}

pub proof fn lemma_kw_values_view(s: Seq<(String, Value)>)
    ensures
        kw_values_view(s).len() == s.len(),
        forall|i: int| 0 <= i < s.len() ==> kw_values_view(s)[i] == (s[i].0@, value_view(s[i].1)),
    decreases s,
{
    if s.len() > 0 {
        lemma_kw_values_view(s.drop_last());
    }
}


/// Views distribute over concatenation of value sequences.
pub proof fn lemma_values_view_concat(a: Seq<Value>, b: Seq<Value>)
    ensures
        values_view(a + b) == values_view(a) + values_view(b),
    decreases b,
{
    if b.len() == 0 {
        assert(a + b =~= a);
        assert(values_view(a) + values_view(b) =~= values_view(a));
    } else {
        lemma_values_view_concat(a, b.drop_last());
        assert((a + b).drop_last() =~= a + b.drop_last());
        assert((a + b).last() == b.last());
        assert(values_view(a) + values_view(b) =~= (values_view(a) + values_view(
            b.drop_last(),
        )).push(value_view(b.last())));
    }
}

} // verus!
