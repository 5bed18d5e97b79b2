//! Type terms, type parameters, predicates and bounds.
//!
//! `Type` and `TyParam` are kept distinct but interconvertible via
//! `TyParam::Type` and `Value::Type`. Free variables are nodes carrying
//! either a constraint (unbound) or a link to the term they were solved
//! to (linked); the evaluator follows links but never creates them.
//!
//! Every type here has a ghost mirror (`TypeV`, `TyParamV`, ...) built
//! from mathematical sequences; the mirrors are the language in which
//! the evaluator's contracts are stated.

use vstd::prelude::*;
use crate::value::{Field, FieldV, Value, ValueV, value_view};

verus! {

/// Algebraic operators liftable into type parameters.
#[derive(Clone, Copy, Debug, PartialEq, Eq, Structural)]
pub enum OpKind {
    Add,
    Sub,
    Mul,
    Div,
    Pow,
    Mod,
    Eq,
    Ne,
    Lt,
    Gt,
    Le,
    Ge,
    And,
    Or,
    BitAnd,
    BitXor,
    BitOr,
    Shl,
    Shr,
    Mutate,
    Pos,
    Neg,
    Invert,
}

/// Whether a subroutine type is a function (pure) or a procedure.
#[derive(Clone, Copy, Debug, PartialEq, Eq, Structural)]
pub enum SubrKind {
    Func,
    Proc,
}

/// One parameter of a subroutine type: an optional keyword name and a type.
#[derive(Debug)]
pub struct ParamTy {
    pub name: Option<String>,
    pub t: Type,
}

/// A subroutine type: non-default parameters, an optional variadic
/// parameter, default parameters, and the return type.
#[derive(Debug)]
pub struct SubrType {
    pub kind: SubrKind,
    pub non_default_params: Vec<ParamTy>,
    pub var_params: Option<Box<ParamTy>>,
    pub default_params: Vec<ParamTy>,
    pub return_t: Box<Type>,
}

/// A refinement type `{ var: t | preds }`.
#[derive(Debug)]
pub struct RefinementType {
    pub var: String,
    pub t: Box<Type>,
    pub preds: Vec<Predicate>,
}

/// What is known about an unbound type variable.
#[derive(Debug)]
pub enum Constraint {
    /// `sub <: var <: sup`.
    Sandwiched { sub: Box<Type>, sup: Box<Type> },
    /// `var : t`.
    TypeOf(Box<Type>),
    /// Nothing yet.
    Uninited,
}

/// A free type variable: unbound with a constraint, or linked to the
/// type it was solved to.
#[derive(Debug)]
pub enum FreeTyVar {
    Unbound { name: Option<String>, level: usize, constraint: Constraint },
    Linked(Box<Type>),
}

/// A free type-parameter variable.
#[derive(Debug)]
pub enum FreeTyParam {
    Unbound { name: Option<String>, level: usize, t: Box<Type> },
    Linked(Box<TyParam>),
}

/// A type term.
#[derive(Debug)]
pub enum Type {
    /// The top type.
    Obj,
    Int,
    Nat,
    Ratio,
    Str,
    Bool,
    NoneType,
    NotImplemented,
    Ellipsis,
    Inf,
    /// The bottom type.
    Never,
    /// The type of types.
    Type,
    /// A named built-in monomorphic type.
    BuiltinMono(String),
    /// A named user monomorphic type, qualified by a module path.
    Mono { path: String, name: String },
    /// A quantified monomorphic type variable.
    MonoQVar(String),
    FreeVar(Box<FreeTyVar>),
    Subr(SubrType),
    Refinement(RefinementType),
    Ref(Box<Type>),
    RefMut { before: Box<Type>, after: Option<Box<Type>> },
    Record(Vec<(Field, Type)>),
    BuiltinPoly { name: String, params: Vec<TyParam> },
    Poly { path: String, name: String, params: Vec<TyParam> },
    PolyQVar { name: String, params: Vec<TyParam> },
    /// A projection `lhs.rhs`.
    MonoProj { lhs: Box<Type>, rhs: String },
    And(Box<Type>, Box<Type>),
    Or(Box<Type>, Box<Type>),
    Not(Box<Type>, Box<Type>),
    /// A type closed under bounds on its variables.
    Quantified { unbound: Box<Type>, bounds: Vec<TyBound> },
}

/// A value that appears inside a type.
#[derive(Debug)]
pub enum TyParam {
    Value(Value),
    Type(Box<Type>),
    FreeVar(Box<FreeTyParam>),
    /// A monomorphic constant name, resolved through the context.
    Mono(String),
    MonoQVar(String),
    /// A placeholder carrying only its type.
    Erased(Box<Type>),
    BinOp { op: OpKind, lhs: Box<TyParam>, rhs: Box<TyParam> },
    UnaryOp { op: OpKind, val: Box<TyParam> },
    Array(Vec<TyParam>),
    Tuple(Vec<TyParam>),
    App { name: String, args: Vec<TyParam> },
    PolyQVar { name: String, args: Vec<TyParam> },
    MonoProj { obj: Box<TyParam>, attr: String },
}

/// A boolean formula over type parameters.
#[derive(Debug)]
pub enum Predicate {
    Value(Value),
    Const(String),
    Equal { lhs: String, rhs: TyParam },
    NotEqual { lhs: String, rhs: TyParam },
    LessEqual { lhs: String, rhs: TyParam },
    GreaterEqual { lhs: String, rhs: TyParam },
    And(Box<Predicate>, Box<Predicate>),
    Or(Box<Predicate>, Box<Predicate>),
    Not(Box<Predicate>, Box<Predicate>),
}

/// A constraint on a type variable of a quantified type.
#[derive(Debug)]
pub enum TyBound {
    Sandwiched { sub: Type, mid: Type, sup: Type },
    Instance { name: String, t: Type },
}

// ---------------------------------------------------------------------
// Ghost mirrors.
// ---------------------------------------------------------------------

#[verifier::ext_equal]
pub ghost struct ParamTyV {
    pub name: Option<Seq<char>>,
    pub t: TypeV,
}

#[verifier::ext_equal]
pub ghost struct SubrTypeV {
    pub kind: SubrKind,
    pub non_default_params: Seq<ParamTyV>,
    pub var_params: Option<Box<ParamTyV>>,
    pub default_params: Seq<ParamTyV>,
    pub return_t: Box<TypeV>,
}

#[verifier::ext_equal]
pub ghost struct RefinementV {
    pub var: Seq<char>,
    pub t: Box<TypeV>,
    pub preds: Seq<PredV>,
}

#[verifier::ext_equal]
pub ghost enum ConstraintV {
    Sandwiched { sub: Box<TypeV>, sup: Box<TypeV> },
    TypeOf(Box<TypeV>),
    Uninited,
}

#[verifier::ext_equal]
pub ghost enum FreeTyVarV {
    Unbound { name: Option<Seq<char>>, level: nat, constraint: ConstraintV },
    Linked(Box<TypeV>),
}

#[verifier::ext_equal]
pub ghost enum FreeTyParamV {
    Unbound { name: Option<Seq<char>>, level: nat, t: Box<TypeV> },
    Linked(Box<TyParamV>),
}

#[verifier::ext_equal]
pub ghost enum TypeV {
    Obj,
    Int,
    Nat,
    Ratio,
    Str,
    Bool,
    NoneType,
    NotImplemented,
    Ellipsis,
    Inf,
    Never,
    Type,
    BuiltinMono(Seq<char>),
    Mono { path: Seq<char>, name: Seq<char> },
    MonoQVar(Seq<char>),
    FreeVar(Box<FreeTyVarV>),
    Subr(SubrTypeV),
    Refinement(RefinementV),
    Ref(Box<TypeV>),
    RefMut { before: Box<TypeV>, after: Option<Box<TypeV>> },
    Record(Seq<(FieldV, TypeV)>),
    BuiltinPoly { name: Seq<char>, params: Seq<TyParamV> },
    Poly { path: Seq<char>, name: Seq<char>, params: Seq<TyParamV> },
    PolyQVar { name: Seq<char>, params: Seq<TyParamV> },
    MonoProj { lhs: Box<TypeV>, rhs: Seq<char> },
    And(Box<TypeV>, Box<TypeV>),
    Or(Box<TypeV>, Box<TypeV>),
    Not(Box<TypeV>, Box<TypeV>),
    Quantified { unbound: Box<TypeV>, bounds: Seq<TyBoundV> },
}

#[verifier::ext_equal]
pub ghost enum TyParamV {
    Value(ValueV),
    Type(Box<TypeV>),
    FreeVar(Box<FreeTyParamV>),
    Mono(Seq<char>),
    MonoQVar(Seq<char>),
    Erased(Box<TypeV>),
    BinOp { op: OpKind, lhs: Box<TyParamV>, rhs: Box<TyParamV> },
    UnaryOp { op: OpKind, val: Box<TyParamV> },
    Array(Seq<TyParamV>),
    Tuple(Seq<TyParamV>),
    App { name: Seq<char>, args: Seq<TyParamV> },
    PolyQVar { name: Seq<char>, args: Seq<TyParamV> },
    MonoProj { obj: Box<TyParamV>, attr: Seq<char> },
}

#[verifier::ext_equal]
pub ghost enum PredV {
    Value(ValueV),
    Const(Seq<char>),
    Equal { lhs: Seq<char>, rhs: TyParamV },
    NotEqual { lhs: Seq<char>, rhs: TyParamV },
    LessEqual { lhs: Seq<char>, rhs: TyParamV },
    GreaterEqual { lhs: Seq<char>, rhs: TyParamV },
    And(Box<PredV>, Box<PredV>),
    Or(Box<PredV>, Box<PredV>),
    Not(Box<PredV>, Box<PredV>),
}

#[verifier::ext_equal]
pub ghost enum TyBoundV {
    Sandwiched { sub: TypeV, mid: TypeV, sup: TypeV },
    Instance { name: Seq<char>, t: TypeV },
}

// ---------------------------------------------------------------------
// Views.
// ---------------------------------------------------------------------

pub open spec fn opt_str_view(o: Option<String>) -> Option<Seq<char>> {
    match o {
        Some(s) => Some(s@),
        None => None,
    }
}

pub open spec fn paramty_view(p: ParamTy) -> ParamTyV
    decreases p,
{
    ParamTyV { name: opt_str_view(p.name), t: type_view(p.t) }
}

pub open spec fn subrty_view(s: SubrType) -> SubrTypeV
    decreases s,
{
    SubrTypeV {
        kind: s.kind,
        non_default_params: paramtys_view(s.non_default_params@),
        var_params: match s.var_params {
            Some(b) => Some(Box::new(paramty_view(*b))),
            None => None,
        },
        default_params: paramtys_view(s.default_params@),
        return_t: Box::new(type_view(*s.return_t)),
    }
}

pub open spec fn constraint_view(c: Constraint) -> ConstraintV
    decreases c,
{
    match c {
        Constraint::Sandwiched { sub, sup } => ConstraintV::Sandwiched {
            sub: Box::new(type_view(*sub)),
            sup: Box::new(type_view(*sup)),
        },
        Constraint::TypeOf(t) => ConstraintV::TypeOf(Box::new(type_view(*t))),
        Constraint::Uninited => ConstraintV::Uninited,
    }
}

pub open spec fn fvt_view(f: FreeTyVar) -> FreeTyVarV
    decreases f,
{
    match f {
        FreeTyVar::Unbound { name, level, constraint } => FreeTyVarV::Unbound {
            name: opt_str_view(name),
            level: level as nat,
            constraint: constraint_view(constraint),
        },
        FreeTyVar::Linked(t) => FreeTyVarV::Linked(Box::new(type_view(*t))),
    }
}

pub open spec fn fvtp_view(f: FreeTyParam) -> FreeTyParamV
    decreases f,
{
    match f {
        FreeTyParam::Unbound { name, level, t } => FreeTyParamV::Unbound {
            name: opt_str_view(name),
            level: level as nat,
            t: Box::new(type_view(*t)),
        },
        FreeTyParam::Linked(p) => FreeTyParamV::Linked(Box::new(typaram_view(*p))),
    }
}

pub open spec fn type_view(t: Type) -> TypeV
    decreases t,
{
    match t {
        Type::Obj => TypeV::Obj,
        Type::Int => TypeV::Int,
        Type::Nat => TypeV::Nat,
        Type::Ratio => TypeV::Ratio,
        Type::Str => TypeV::Str,
        Type::Bool => TypeV::Bool,
        Type::NoneType => TypeV::NoneType,
        Type::NotImplemented => TypeV::NotImplemented,
        Type::Ellipsis => TypeV::Ellipsis,
        Type::Inf => TypeV::Inf,
        Type::Never => TypeV::Never,
        Type::Type => TypeV::Type,
        Type::BuiltinMono(n) => TypeV::BuiltinMono(n@),
        Type::Mono { path, name } => TypeV::Mono { path: path@, name: name@ },
        Type::MonoQVar(n) => TypeV::MonoQVar(n@),
        Type::FreeVar(f) => TypeV::FreeVar(Box::new(fvt_view(*f))),
        Type::Subr(s) => TypeV::Subr(subrty_view(s)),
        Type::Refinement(r) => TypeV::Refinement(
            RefinementV { var: r.var@, t: Box::new(type_view(*r.t)), preds: preds_view(r.preds@) },
        ),
        Type::Ref(t2) => TypeV::Ref(Box::new(type_view(*t2))),
        Type::RefMut { before, after } => TypeV::RefMut {
            before: Box::new(type_view(*before)),
            after: match after {
                Some(a) => Some(Box::new(type_view(*a))),
                None => None,
            },
        },
        Type::Record(fields) => TypeV::Record(record_t_view(fields@)),
        Type::BuiltinPoly { name, params } => TypeV::BuiltinPoly {
            name: name@,
            params: typarams_view(params@),
        },
        Type::Poly { path, name, params } => TypeV::Poly {
            path: path@,
            name: name@,
            params: typarams_view(params@),
        },
        Type::PolyQVar { name, params } => TypeV::PolyQVar {
            name: name@,
            params: typarams_view(params@),
        },
        Type::MonoProj { lhs, rhs } => TypeV::MonoProj { lhs: Box::new(type_view(*lhs)), rhs: rhs@ },
        Type::And(a, b) => TypeV::And(Box::new(type_view(*a)), Box::new(type_view(*b))),
        Type::Or(a, b) => TypeV::Or(Box::new(type_view(*a)), Box::new(type_view(*b))),
        Type::Not(a, b) => TypeV::Not(Box::new(type_view(*a)), Box::new(type_view(*b))),
        Type::Quantified { unbound, bounds } => TypeV::Quantified {
            unbound: Box::new(type_view(*unbound)),
            bounds: bounds_view(bounds@),
        },
    }
}

pub open spec fn typaram_view(p: TyParam) -> TyParamV
    decreases p,
{
    match p {
        TyParam::Value(v) => TyParamV::Value(value_view(v)),
        TyParam::Type(t) => TyParamV::Type(Box::new(type_view(*t))),
        TyParam::FreeVar(f) => TyParamV::FreeVar(Box::new(fvtp_view(*f))),
        TyParam::Mono(n) => TyParamV::Mono(n@),
        TyParam::MonoQVar(n) => TyParamV::MonoQVar(n@),
        TyParam::Erased(t) => TyParamV::Erased(Box::new(type_view(*t))),
        TyParam::BinOp { op, lhs, rhs } => TyParamV::BinOp {
            op,
            lhs: Box::new(typaram_view(*lhs)),
            rhs: Box::new(typaram_view(*rhs)),
        },
        TyParam::UnaryOp { op, val } => TyParamV::UnaryOp {
            op,
            val: Box::new(typaram_view(*val)),
        },
        TyParam::Array(args) => TyParamV::Array(typarams_view(args@)),
        TyParam::Tuple(args) => TyParamV::Tuple(typarams_view(args@)),
        TyParam::App { name, args } => TyParamV::App { name: name@, args: typarams_view(args@) },
        TyParam::PolyQVar { name, args } => TyParamV::PolyQVar {
            name: name@,
            args: typarams_view(args@),
        },
        TyParam::MonoProj { obj, attr } => TyParamV::MonoProj {
            obj: Box::new(typaram_view(*obj)),
            attr: attr@,
        },
    }
}

pub open spec fn pred_view(p: Predicate) -> PredV
    decreases p,
{
    match p {
        Predicate::Value(v) => PredV::Value(value_view(v)),
        Predicate::Const(n) => PredV::Const(n@),
        Predicate::Equal { lhs, rhs } => PredV::Equal { lhs: lhs@, rhs: typaram_view(rhs) },
        Predicate::NotEqual { lhs, rhs } => PredV::NotEqual { lhs: lhs@, rhs: typaram_view(rhs) },
        Predicate::LessEqual { lhs, rhs } => PredV::LessEqual { lhs: lhs@, rhs: typaram_view(rhs) },
        Predicate::GreaterEqual { lhs, rhs } => PredV::GreaterEqual {
            lhs: lhs@,
            rhs: typaram_view(rhs),
        },
        Predicate::And(a, b) => PredV::And(Box::new(pred_view(*a)), Box::new(pred_view(*b))),
        Predicate::Or(a, b) => PredV::Or(Box::new(pred_view(*a)), Box::new(pred_view(*b))),
        Predicate::Not(a, b) => PredV::Not(Box::new(pred_view(*a)), Box::new(pred_view(*b))),
    }
}

pub open spec fn bound_view(b: TyBound) -> TyBoundV
    decreases b,
{
    match b {
        TyBound::Sandwiched { sub, mid, sup } => TyBoundV::Sandwiched {
            sub: type_view(sub),
            mid: type_view(mid),
            sup: type_view(sup),
        },
        TyBound::Instance { name, t } => TyBoundV::Instance { name: name@, t: type_view(t) },
    }
}

pub open spec fn typarams_view(s: Seq<TyParam>) -> Seq<TyParamV>
    decreases s,
{
    if s.len() == 0 {
        Seq::empty()
    } else {
        typarams_view(s.drop_last()).push(typaram_view(s.last()))
    }
}

pub open spec fn types_view(s: Seq<Type>) -> Seq<TypeV>
    decreases s,
{
    if s.len() == 0 {
        Seq::empty()
    } else {
        types_view(s.drop_last()).push(type_view(s.last()))
    }
}

pub open spec fn preds_view(s: Seq<Predicate>) -> Seq<PredV>
    decreases s,
{
    if s.len() == 0 {
        Seq::empty()
    } else {
        preds_view(s.drop_last()).push(pred_view(s.last()))
    }
}

pub open spec fn paramtys_view(s: Seq<ParamTy>) -> Seq<ParamTyV>
    decreases s,
{
    if s.len() == 0 {
        Seq::empty()
    } else {
        paramtys_view(s.drop_last()).push(paramty_view(s.last()))
    }
}

pub open spec fn bounds_view(s: Seq<TyBound>) -> Seq<TyBoundV>
    decreases s,
{
    if s.len() == 0 {
        Seq::empty()
    } else {
        bounds_view(s.drop_last()).push(bound_view(s.last()))
    }
}

pub open spec fn record_t_view(s: Seq<(Field, Type)>) -> Seq<(FieldV, TypeV)>
    decreases s,
{
    if s.len() == 0 {
        Seq::empty()
    } else {
        record_t_view(s.drop_last()).push(
            (crate::value::field_view(s.last().0), type_view(s.last().1)),
        )
    }
}

// ---------------------------------------------------------------------
// Lemmas about the sequence views.
// ---------------------------------------------------------------------

pub proof fn lemma_typarams_view(s: Seq<TyParam>)
    ensures
        typarams_view(s).len() == s.len(),
        forall|i: int| 0 <= i < s.len() ==> typarams_view(s)[i] == typaram_view(s[i]),
    decreases s,
{
    if s.len() > 0 {
        lemma_typarams_view(s.drop_last());
    }
}

pub proof fn lemma_types_view(s: Seq<Type>)
    ensures
        types_view(s).len() == s.len(),
        forall|i: int| 0 <= i < s.len() ==> types_view(s)[i] == type_view(s[i]),
    decreases s,
{
    if s.len() > 0 {
        lemma_types_view(s.drop_last());
    }
}

pub proof fn lemma_preds_view(s: Seq<Predicate>)
    ensures
        preds_view(s).len() == s.len(),
        forall|i: int| 0 <= i < s.len() ==> preds_view(s)[i] == pred_view(s[i]),
    decreases s,
{
    if s.len() > 0 {
        lemma_preds_view(s.drop_last());
    }
}

pub proof fn lemma_paramtys_view(s: Seq<ParamTy>)
    ensures
        paramtys_view(s).len() == s.len(),
        forall|i: int| 0 <= i < s.len() ==> paramtys_view(s)[i] == paramty_view(s[i]),
    decreases s,
{
    if s.len() > 0 {
        lemma_paramtys_view(s.drop_last());
    }
}

pub proof fn lemma_bounds_view(s: Seq<TyBound>)
    ensures
        bounds_view(s).len() == s.len(),
        forall|i: int| 0 <= i < s.len() ==> bounds_view(s)[i] == bound_view(s[i]),
    decreases s,
{
    if s.len() > 0 {
        lemma_bounds_view(s.drop_last());
    }
}

pub proof fn lemma_record_t_view(s: Seq<(Field, Type)>)
    ensures
        record_t_view(s).len() == s.len(),
        forall|i: int| 0 <= i < s.len() ==> record_t_view(s)[i] == (
        crate::value::field_view(s[i].0),
        type_view(s[i].1),
        ),
    decreases s,
{
    if s.len() > 0 {
        lemma_record_t_view(s.drop_last());
    }
}


/// A trigger helper: naming a refinement's view pieces lets provers
/// connect a freshly built refinement to its mirror.
pub open spec fn refinement_view_probe(rf: RefinementType) -> bool {
    type_view(Type::Refinement(rf)) == TypeV::Refinement(
        RefinementV { var: rf.var@, t: Box::new(type_view(*rf.t)), preds: preds_view(rf.preds@) },
    )
}

} // verus!
