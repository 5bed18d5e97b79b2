//! Constructor helpers on types, the class of a value, and the
//! value-level attribute lookup.

use vstd::prelude::*;
use crate::ty::{
    ParamTy, ParamTyV, Predicate, RefinementType, SubrKind, SubrType, TyParam, TyParamV, Type,
    TypeV, RefinementV, SubrTypeV, TyBound, lemma_preds_view, lemma_typarams_view, paramtys_view,
    preds_view, typaram_view, typarams_view, type_view, opt_str_view,
};
use crate::value::{
    ConstSubr, Field, FieldV, Value, ValueV, field_view, lemma_record_v_view, lemma_values_view,
    record_v_view, value_view, values_view,
};
use crate::deep::{field_eq, type_dup, typarams_dup, value_dup};

verus! {

// ---------------------------------------------------------------------
// Constructor helpers.
// ---------------------------------------------------------------------

pub fn and(l: Type, r: Type) -> (t: Type)
    ensures
        type_view(t) == TypeV::And(Box::new(type_view(l)), Box::new(type_view(r))),
{
    Type::And(Box::new(l), Box::new(r))
}

pub fn or(l: Type, r: Type) -> (t: Type)
    ensures
        type_view(t) == TypeV::Or(Box::new(type_view(l)), Box::new(type_view(r))),
{
    Type::Or(Box::new(l), Box::new(r))
}

pub fn not(l: Type, r: Type) -> (t: Type)
    ensures
        type_view(t) == TypeV::Not(Box::new(type_view(l)), Box::new(type_view(r))),
{
    Type::Not(Box::new(l), Box::new(r))
}

pub fn ref_(t: Type) -> (r: Type)
    ensures
        type_view(r) == TypeV::Ref(Box::new(type_view(t))),
{
    Type::Ref(Box::new(t))
}

pub fn ref_mut(before: Type, after: Option<Type>) -> (r: Type)
    ensures
        type_view(r) == (TypeV::RefMut {
            before: Box::new(type_view(before)),
            after: match after {
                Some(a) => Some(Box::new(type_view(a))),
                None => None,
            },
        }),
{
    Type::RefMut {
        before: Box::new(before),
        after: match after {
            Some(a) => Some(Box::new(a)),
            None => None,
        },
    }
}

pub fn builtin_mono(name: &str) -> (r: Type)
    ensures
        type_view(r) == TypeV::BuiltinMono(name@),
{
    Type::BuiltinMono(name.to_owned())
}

pub fn builtin_poly(name: &str, params: Vec<TyParam>) -> (r: Type)
    ensures
        type_view(r) == (TypeV::BuiltinPoly { name: name@, params: typarams_view(params@) }),
{
    Type::BuiltinPoly { name: name.to_owned(), params }
}

pub fn poly(path: String, name: String, params: Vec<TyParam>) -> (r: Type)
    ensures
        type_view(r) == (TypeV::Poly {
            path: path@,
            name: name@,
            params: typarams_view(params@),
        }),
{
    Type::Poly { path, name, params }
}

pub fn mono_proj(lhs: Type, rhs: String) -> (r: Type)
    ensures
        type_view(r) == (TypeV::MonoProj { lhs: Box::new(type_view(lhs)), rhs: rhs@ }),
{
    Type::MonoProj { lhs: Box::new(lhs), rhs }
}

pub fn refinement(var: String, t: Type, preds: Vec<Predicate>) -> (r: Type)
    ensures
        type_view(r) == TypeV::Refinement(
            RefinementV { var: var@, t: Box::new(type_view(t)), preds: preds_view(preds@) },
        ),
{
    let rf = RefinementType { var, t: Box::new(t), preds };
    proof {
        assert(crate::ty::refinement_view_probe(rf));
    }
    Type::Refinement(rf)
}

pub fn subr_t(
    kind: SubrKind,
    non_default_params: Vec<ParamTy>,
    var_params: Option<ParamTy>,
    default_params: Vec<ParamTy>,
    return_t: Type,
) -> (r: Type)
    ensures
        type_view(r) == TypeV::Subr(
            SubrTypeV {
                kind,
                non_default_params: paramtys_view(non_default_params@),
                var_params: match var_params {
                    Some(p) => Some(Box::new(crate::ty::paramty_view(p))),
                    None => None,
                },
                default_params: paramtys_view(default_params@),
                return_t: Box::new(type_view(return_t)),
            },
        ),
{
    let vp: Option<Box<ParamTy>> = match var_params {
        Some(p) => Some(Box::new(p)),
        None => None,
    };
    proof {
        assert(vp matches Some(b) ==> crate::ty::paramty_view(*b) == crate::ty::paramty_view(
            var_params->0,
        ));
    }
    let st = SubrType {
        kind,
        non_default_params,
        var_params: vp,
        default_params,
        return_t: Box::new(return_t),
    };
    proof {
        assert(crate::ty::subrty_view(st).kind == kind);
    }
    Type::Subr(st)
}

impl ParamTy {
    /// A keyword parameter.
    pub fn kw(name: String, t: Type) -> (r: ParamTy)
        ensures
            crate::ty::paramty_view(r) == (ParamTyV { name: Some(name@), t: type_view(t) }),
    {
        ParamTy { name: Some(name), t }
    }

    /// An anonymous parameter.
    pub fn anonymous(t: Type) -> (r: ParamTy)
        ensures
            crate::ty::paramty_view(r) == (ParamTyV { name: None, t: type_view(t) }),
    {
        ParamTy { name: None, t }
    }
}

// ---------------------------------------------------------------------
// Type parameters of a type, and monomorphism.
// ---------------------------------------------------------------------

/// The type parameters a type applies, following links.
pub open spec fn typarams_v(t: TypeV) -> Seq<TyParamV>
    decreases t,
{
    match t {
        TypeV::BuiltinPoly { params, .. } => params,
        TypeV::Poly { params, .. } => params,
        TypeV::PolyQVar { params, .. } => params,
        TypeV::FreeVar(f) => match *f {
            crate::ty::FreeTyVarV::Linked(u) => typarams_v(*u),
            _ => Seq::empty(),
        },
        _ => Seq::empty(),
    }
}

impl Type {
    /// The type parameters of this type, as fresh terms.
    pub fn typarams(&self) -> (r: Vec<TyParam>)
        ensures
            typarams_view(r@) == typarams_v(type_view(*self)),
        decreases *self,
    {
        match self {
            Type::BuiltinPoly { params, .. } => typarams_dup(params),
            Type::Poly { params, .. } => typarams_dup(params),
            Type::PolyQVar { params, .. } => typarams_dup(params),
            Type::FreeVar(f) => {
                let fv: &crate::ty::FreeTyVar = f;
                proof {
                    assert(type_view(*self) == TypeV::FreeVar(
                        Box::new(crate::ty::fvt_view(*fv)),
                    ));
                }
                match fv {
                    crate::ty::FreeTyVar::Linked(u) => {
                        let inner: &Type = u;
                        proof {
                            assert(crate::ty::fvt_view(*fv) == crate::ty::FreeTyVarV::Linked(
                                Box::new(type_view(*inner)),
                            ));
                        }
                        inner.typarams()
                    },
                    _ => Vec::new(),
                }
            },
            _ => Vec::new(),
        }
    }

    /// Whether the type applies no type parameters.
    pub fn is_monomorphic(&self) -> (r: bool)
        ensures
            r == (typarams_v(type_view(*self)).len() == 0),
        decreases *self,
    {
        match self {
            Type::BuiltinPoly { params, .. } => {
                proof {
                    lemma_typarams_view(params@);
                }
                params.len() == 0
            },
            Type::Poly { params, .. } => {
                proof {
                    lemma_typarams_view(params@);
                }
                params.len() == 0
            },
            Type::PolyQVar { params, .. } => {
                proof {
                    lemma_typarams_view(params@);
                }
                params.len() == 0
            },
            Type::FreeVar(f) => {
                let fv: &crate::ty::FreeTyVar = f;
                proof {
                    assert(type_view(*self) == TypeV::FreeVar(
                        Box::new(crate::ty::fvt_view(*fv)),
                    ));
                }
                match fv {
                    crate::ty::FreeTyVar::Linked(u) => {
                        let inner: &Type = u;
                        proof {
                            assert(crate::ty::fvt_view(*fv) == crate::ty::FreeTyVarV::Linked(
                                Box::new(type_view(*inner)),
                            ));
                        }
                        inner.is_monomorphic()
                    },
                    _ => true,
                }
            },
            _ => true,
        }
    }

    /// Whether this is the bottom type.
    pub fn is_never(&self) -> (r: bool)
        ensures
            r == (type_view(*self) is Never),
    {
        matches!(self, Type::Never)
    }
}

// ---------------------------------------------------------------------
// Mutation of a type name.
// ---------------------------------------------------------------------

/// The mutable counterpart of a named type: the name with `!` appended.
/// Only named types have one.
pub open spec fn mutate_v(t: TypeV) -> Option<TypeV> {
    match t {
        TypeV::Int => Some(TypeV::BuiltinMono("Int"@.push('!'))),
        TypeV::Nat => Some(TypeV::BuiltinMono("Nat"@.push('!'))),
        TypeV::Ratio => Some(TypeV::BuiltinMono("Ratio"@.push('!'))),
        TypeV::Str => Some(TypeV::BuiltinMono("Str"@.push('!'))),
        TypeV::Bool => Some(TypeV::BuiltinMono("Bool"@.push('!'))),
        TypeV::BuiltinMono(n) => Some(TypeV::BuiltinMono(n.push('!'))),
        TypeV::Mono { path, name } => Some(TypeV::Mono { path, name: name.push('!') }),
        TypeV::BuiltinPoly { name, params } => Some(
            TypeV::BuiltinPoly { name: name.push('!'), params },
        ),
        TypeV::Poly { path, name, params } => Some(
            TypeV::Poly { path, name: name.push('!'), params },
        ),
        _ => None,
    }
}

impl Type {
    /// The mutable counterpart of this type, where it has a name.
    pub fn mutate(self) -> (r: Option<Type>)
        ensures
            match r {
                Some(t) => mutate_v(type_view(self)) == Some(type_view(t)),
                None => mutate_v(type_view(self)) is None,
            },
    {
        match self {
            Type::Int => Some(Type::BuiltinMono(bang("Int".to_owned()))),
            Type::Nat => Some(Type::BuiltinMono(bang("Nat".to_owned()))),
            Type::Ratio => Some(Type::BuiltinMono(bang("Ratio".to_owned()))),
            Type::Str => Some(Type::BuiltinMono(bang("Str".to_owned()))),
            Type::Bool => Some(Type::BuiltinMono(bang("Bool".to_owned()))),
            Type::BuiltinMono(n) => Some(Type::BuiltinMono(bang(n))),
            Type::Mono { path, name } => Some(Type::Mono { path, name: bang(name) }),
            Type::BuiltinPoly { name, params } => Some(
                Type::BuiltinPoly { name: bang(name), params },
            ),
            Type::Poly { path, name, params } => Some(
                Type::Poly { path, name: bang(name), params },
            ),
            _ => None,
        }
    }
}

/// Appends the mutation mark to a name.
fn bang(name: String) -> (r: String)
    ensures
        r@ == name@.push('!'),
{
    let r = name.concat("!");
    proof {
        reveal_strlit("!");
        assert(r@ =~= name@.push('!'));
    }
    r
}

// ---------------------------------------------------------------------
// The class of a value.
// ---------------------------------------------------------------------

/// The classes of a record's fields, where they all have one.
pub open spec fn record_classes_v(s: Seq<(FieldV, ValueV)>) -> Option<Seq<(FieldV, TypeV)>>
    decreases s,
{
    if s.len() == 0 {
        Some(Seq::empty())
    } else {
        match class_of_v(s[0].1) {
            Some(c) => match record_classes_v(s.drop_first()) {
                Some(rest) => Some(seq![(s[0].0, c)] + rest),
                None => None,
            },
            None => None,
        }
    }
}

/// The class (runtime type) of a value. A cell's class is the mutable
/// counterpart of its interior's class, so values whose interior class
/// has no mutable name have none.
pub open spec fn class_of_v(v: ValueV) -> Option<TypeV>
    decreases v,
{
    match v {
        ValueV::Int(_) => Some(TypeV::Int),
        ValueV::Nat(_) => Some(TypeV::Nat),
        ValueV::Ratio { .. } => Some(TypeV::Ratio),
        ValueV::Str(_) => Some(TypeV::Str),
        ValueV::Bool(_) => Some(TypeV::Bool),
        ValueV::NoneVal => Some(TypeV::NoneType),
        ValueV::NotImplemented => Some(TypeV::NotImplemented),
        ValueV::Ellipsis => Some(TypeV::Ellipsis),
        ValueV::Inf => Some(TypeV::Inf),
        ValueV::Array(elems) => {
            let elem_t = if elems.len() == 0 {
                Some(TypeV::Never)
            } else {
                class_of_v(elems[0])
            };
            match elem_t {
                Some(t) => Some(
                    TypeV::BuiltinPoly {
                        name: "Array"@,
                        params: seq![
                            TyParamV::Type(Box::new(t)),
                            TyParamV::Value(ValueV::Nat(elems.len())),
                        ],
                    },
                ),
                None => None,
            }
        },
        ValueV::Record(attrs) => match record_classes_v(attrs) {
            Some(fields) => Some(TypeV::Record(fields)),
            None => None,
        },
        ValueV::Type(_) => Some(TypeV::Type),
        ValueV::Subr(s) => match s {
            crate::value::ConstSubrV::User { sig_t, .. } => Some(sig_t),
            crate::value::ConstSubrV::Builtin { .. } => Some(
                TypeV::BuiltinMono("Subroutine"@),
            ),
        },
        ValueV::Mut(inner) => match class_of_v(*inner) {
            Some(c) => mutate_v(c),
            None => None,
        },
    }
}

impl Value {
    /// The class of this value, where it has one.
    pub fn class(&self) -> (r: Option<Type>)
        ensures
            match r {
                Some(t) => class_of_v(value_view(*self)) == Some(type_view(t)),
                None => class_of_v(value_view(*self)) is None,
            },
        decreases *self, 1int,
    {
        match self {
            Value::Int(_) => Some(Type::Int),
            Value::Nat(_) => Some(Type::Nat),
            Value::Ratio { .. } => Some(Type::Ratio),
            Value::Str(_) => Some(Type::Str),
            Value::Bool(_) => Some(Type::Bool),
            Value::NoneVal => Some(Type::NoneType),
            Value::NotImplemented => Some(Type::NotImplemented),
            Value::Ellipsis => Some(Type::Ellipsis),
            Value::Inf => Some(Type::Inf),
            Value::Array(elems) => {
                proof {
                    lemma_values_view(elems@);
                }
                let elem_t: Option<Type> = if elems.len() == 0 {
                    Some(Type::Never)
                } else {
                    proof {
                        assert(decreases_to!(*self => self->Array_0[0]));
                    }
                    elems[0].class()
                };
                match elem_t {
                    Some(t) => {
                        let ghost tv = type_view(t);
                        let n_elems: u64 = elems.len() as u64;
                        proof {
                            assert(n_elems as nat == elems@.len());
                        }
                        let mut params: Vec<TyParam> = Vec::new();
                        params.push(TyParam::Type(Box::new(t)));
                        params.push(TyParam::Value(Value::Nat(n_elems)));
                        proof {
                            lemma_typarams_view(params@);
                        }
                        proof {
                            assert(params@[1] == TyParam::Value(Value::Nat(n_elems)));
                            assert(value_view(Value::Nat(n_elems)) == ValueV::Nat(
                                n_elems as nat,
                            ));
                            assert(typaram_view(params@[1]) == TyParamV::Value(
                                ValueV::Nat(n_elems as nat),
                            ));
                        }
                        let out = Type::BuiltinPoly { name: "Array".to_owned(), params };
                        proof {
                            assert(out->BuiltinPoly_params@.len() == 2);
                            assert(typaram_view(out->BuiltinPoly_params@[0]) == TyParamV::Type(
                                Box::new(tv),
                            ));
                            assert(typaram_view(out->BuiltinPoly_params@[1]) == TyParamV::Value(
                                ValueV::Nat(elems@.len() as nat),
                            ));
                            assert(type_view(out)->BuiltinPoly_params == typarams_view(
                                out->BuiltinPoly_params@,
                            ));
                            lemma_typarams_view(out->BuiltinPoly_params@);
                            assert(type_view(out)->BuiltinPoly_params =~= seq![
                                TyParamV::Type(Box::new(tv)),
                                TyParamV::Value(ValueV::Nat(elems@.len() as nat)),
                            ]);
                            assert(type_view(out) =~= (TypeV::BuiltinPoly {
                                name: "Array"@,
                                params: seq![
                                    TyParamV::Type(Box::new(tv)),
                                    TyParamV::Value(ValueV::Nat(elems@.len() as nat)),
                                ],
                            }));
                        }
                        Some(out)
                    },
                    None => None,
                }
            },
            Value::Record(attrs) => match record_classes_from(attrs, 0) {
                Some(fields) => {
                    proof {
                        assert(attrs@.subrange(0, attrs@.len() as int) =~= attrs@);
                    }
                    Some(Type::Record(fields))
                },
                None => {
                    proof {
                        assert(attrs@.subrange(0, attrs@.len() as int) =~= attrs@);
                    }
                    None
                },
            },
            Value::Type(_) => Some(Type::Type),
            Value::Subr(s) => {
                let inner: &ConstSubr = s;
                proof {
                    assert(value_view(*self) == ValueV::Subr(
                        crate::value::constsubr_view(*inner),
                    ));
                }
                match inner {
                    ConstSubr::User(u) => Some(type_dup(&u.sig_t)),
                    ConstSubr::Builtin(_) => Some(Type::BuiltinMono("Subroutine".to_owned())),
                }
            },
            Value::Mut(cell) => {
                let inner: &Value = cell;
                proof {
                    assert(value_view(*self) == ValueV::Mut(Box::new(value_view(*inner))));
                }
                match inner.class() {
                    Some(c) => c.mutate(),
                    None => None,
                }
            },
        }
    }
}

/// Computes the classes of a record's fields from the given index on.
fn record_classes_from(attrs: &Vec<(Field, Value)>, i: usize) -> (r: Option<Vec<(Field, Type)>>)
    requires
        i <= attrs@.len(),
    ensures
        match r {
            Some(fields) => record_classes_v(
                crate::value::record_v_view(attrs@.subrange(i as int, attrs@.len() as int)),
            ) == Some(crate::ty::record_t_view(fields@)),
            None => record_classes_v(
                crate::value::record_v_view(attrs@.subrange(i as int, attrs@.len() as int)),
            ) is None,
        },
    decreases attrs@, (attrs@.len() - i) as nat, 2int,
{
    proof {
        lemma_record_v_view(attrs@.subrange(i as int, attrs@.len() as int));
    }
    if i == attrs.len() {
        proof {
            assert(attrs@.subrange(i as int, attrs@.len() as int) =~= Seq::<(Field, Value)>::empty());
            assert(crate::ty::record_t_view(Seq::<(Field, Type)>::empty()) =~= Seq::<(
                FieldV,
                TypeV,
            )>::empty());
        }
        return Some(Vec::new());
    }
    proof {
        assert(decreases_to!(attrs@ => attrs@[i as int]));
        assert(decreases_to!(attrs@[i as int] => attrs@[i as int].1));
    }
    let ghost tail = attrs@.subrange(i as int, attrs@.len() as int);
    let ghost tailv = crate::value::record_v_view(tail);
    proof {
        assert(tailv.len() == tail.len());
        assert(tailv[0] == (field_view(tail[0].0), value_view(tail[0].1)));
        assert(tail[0] == attrs@[i as int]);
    }
    match attrs[i].1.class() {
        Some(c) => {
            match record_classes_from(attrs, i + 1) {
                Some(rest) => {
                    let ghost cv = type_view(c);
                    let f = field_dup_local(&attrs[i].0);
                    let ghost fv0 = field_view(f);
                    let mut out: Vec<(Field, Type)> = Vec::new();
                    out.push((f, c));
                    proof {
                        crate::ty::lemma_record_t_view(out@);
                        assert(out@.len() == 1);
                        assert(field_view(out@[0].0) == fv0 && type_view(out@[0].1) == cv);
                        assert(crate::ty::record_t_view(out@) =~= seq![(fv0, cv)]);
                    }
                    let mut rest2 = rest;
                    let ghost restv = crate::ty::record_t_view(rest2@);
                    proof {
                        lemma_record_t_view_concat(out@, rest2@);
                    }
                    out.append(&mut rest2);
                    proof {
                        assert(tailv.drop_first() =~= crate::value::record_v_view(
                            attrs@.subrange(i as int + 1, attrs@.len() as int),
                        )) by {
                            assert(tail.drop_first() =~= attrs@.subrange(
                                i as int + 1,
                                attrs@.len() as int,
                            ));
                            lemma_record_v_view_drop_first(tail);
                        }
                        assert(crate::ty::record_t_view(out@) =~= seq![(fv0, cv)] + restv);
                        assert(record_classes_v(tailv) == Some(seq![(tailv[0].0, cv)] + restv));
                        assert(seq![(tailv[0].0, cv)] + restv =~= crate::ty::record_t_view(out@));
                    }
                    Some(out)
                },
                None => {
                    proof {
                        assert(tailv.drop_first() =~= crate::value::record_v_view(
                            attrs@.subrange(i as int + 1, attrs@.len() as int),
                        )) by {
                            assert(tail.drop_first() =~= attrs@.subrange(
                                i as int + 1,
                                attrs@.len() as int,
                            ));
                            lemma_record_v_view_drop_first(tail);
                        }
                    }
                    None
                },
            }
        },
        None => None,
    }
}

/// Copies a field key.
fn field_dup_local(f: &Field) -> (r: Field)
    ensures
        field_view(r) == field_view(*f),
{
    Field { vis: f.vis, name: f.name.clone() }
}

/// The view of a dropped head is the dropped head of the view.
proof fn lemma_record_v_view_drop_first(s: Seq<(Field, Value)>)
    requires
        s.len() > 0,
    ensures
        record_v_view(s).drop_first() =~= record_v_view(s.drop_first()),
        record_v_view(s)[0] == (field_view(s[0].0), value_view(s[0].1)),
{
    lemma_record_v_view(s);
    lemma_record_v_view(s.drop_first());
    assert forall|j: int| 0 <= j < s.len() - 1 implies record_v_view(s).drop_first()[j]
        == record_v_view(s.drop_first())[j] by {
        assert(s.drop_first()[j] == s[j + 1]);
    }
}

/// Views of record-type rows distribute over concatenation.
proof fn lemma_record_t_view_concat(a: Seq<(Field, Type)>, b: Seq<(Field, Type)>)
    ensures
        crate::ty::record_t_view(a + b) == crate::ty::record_t_view(a) + crate::ty::record_t_view(
            b,
        ),
    decreases b,
{
    if b.len() == 0 {
        assert(a + b =~= a);
        assert(crate::ty::record_t_view(a) + crate::ty::record_t_view(b) =~= crate::ty::record_t_view(
            a,
        ));
    } else {
        lemma_record_t_view_concat(a, b.drop_last());
        assert((a + b).drop_last() =~= a + b.drop_last());
        assert(crate::ty::record_t_view(a) + crate::ty::record_t_view(b)
            =~= (crate::ty::record_t_view(a) + crate::ty::record_t_view(b.drop_last())).push(
            (field_view(b.last().0), type_view(b.last().1)),
        ));
    }
}

// ---------------------------------------------------------------------
// Attribute lookup on values, and reification.
// ---------------------------------------------------------------------

/// The first value bound under a field key in a record row.
pub open spec fn record_get_v(s: Seq<(FieldV, ValueV)>, f: FieldV) -> Option<ValueV>
    decreases s.len(),
{
    if s.len() == 0 {
        None
    } else if s[0].0 == f {
        Some(s[0].1)
    } else {
        record_get_v(s.drop_first(), f)
    }
}

/// The directly readable attribute of a value, if any: records expose
/// their fields.
pub open spec fn get_attr_v(v: ValueV, f: FieldV) -> Option<ValueV> {
    match v {
        ValueV::Record(attrs) => record_get_v(attrs, f),
        _ => None,
    }
}

impl Value {
    /// Reads a directly held attribute, as a fresh value.
    #[verifier::loop_isolation(false)]
    pub fn try_get_attr(&self, f: &Field) -> (r: Option<Value>)
        ensures
            match r {
                Some(v) => get_attr_v(value_view(*self), field_view(*f)) == Some(value_view(v)),
                None => get_attr_v(value_view(*self), field_view(*f)) is None,
            },
    {
        match self {
            Value::Record(attrs) => {
                proof {
                    lemma_record_v_view(attrs@);
                    assert(record_v_view(attrs@).subrange(0, attrs@.len() as int) =~= record_v_view(
                        attrs@,
                    ));
                }
                let n = attrs.len();
                let mut i: usize = 0;
                while i < n
                    invariant
                        i <= n,
                        n == attrs@.len(),
                        forall|j: int| 0 <= j < i ==> field_view(attrs@[j].0) != field_view(*f),
                        record_get_v(record_v_view(attrs@), field_view(*f)) == record_get_v(
                            record_v_view(attrs@).subrange(i as int, n as int),
                            field_view(*f),
                        ),
                    decreases n - i,
                {
                    let ghost pre = record_v_view(attrs@).subrange(i as int, n as int);
                    if field_eq(&attrs[i].0, f) {
                        proof {
                            assert(pre[0] == (field_view(attrs@[i as int].0), value_view(
                                attrs@[i as int].1,
                            )));
                        }
                        return Some(value_dup(&attrs[i].1));
                    }
                    proof {
                        assert(pre[0] == (field_view(attrs@[i as int].0), value_view(
                            attrs@[i as int].1,
                        )));
                        assert(pre.drop_first() =~= record_v_view(attrs@).subrange(
                            i as int + 1,
                            n as int,
                        ));
                    }
                    i = i + 1;
                }
                proof {
                    assert(record_v_view(attrs@).subrange(i as int, n as int).len() == 0);
                }
                None
            },
            _ => None,
        }
    }

    /// The type a value stands for, where it stands for one: a reified
    /// type directly, or the type-former face of a user subroutine.
    pub fn as_type(&self) -> (r: Option<Type>)
        ensures
            match r {
                Some(t) => as_type_v(value_view(*self)) == Some(type_view(t)),
                None => as_type_v(value_view(*self)) is None,
            },
    {
        match self {
            Value::Type(t) => Some(type_dup(t)),
            Value::Subr(s) => {
                let inner: &ConstSubr = s;
                proof {
                    assert(value_view(*self) == ValueV::Subr(
                        crate::value::constsubr_view(*inner),
                    ));
                }
                match inner {
                    ConstSubr::User(u) => match &u.as_type {
                        Some(t) => Some(type_dup(t)),
                        None => None,
                    },
                    _ => None,
                }
            },
            _ => None,
        }
    }
}

/// The type a value stands for, if any.
pub open spec fn as_type_v(v: ValueV) -> Option<TypeV> {
    match v {
        ValueV::Type(t) => Some(*t),
        ValueV::Subr(s) => match s {
            crate::value::ConstSubrV::User { as_type, .. } => as_type,
            _ => None,
        },
        _ => None,
    }
}






} // verus!
