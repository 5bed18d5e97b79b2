use erg_eval::ast::{
    Accessor, ArrayExpr, BinOpExpr, Block, Def, DefBody, Expr, Ident, Literal, RecordExpr,
    Signature, Token, TokenKind, UnaryOpExpr, VarPattern, VarSignature,
};
use erg_eval::classify::{builtin_mono, builtin_poly, mono_proj, refinement};
use erg_eval::context::{ClassDefType, Context, ContextKind, NominalEntry};
use erg_eval::deep::{type_eq, typaram_eq, value_eq};
use erg_eval::error::{ErrorKind, Location};
use erg_eval::eval::{try_get_op_kind_from_token, type_from_token_kind};
use erg_eval::ty::{OpKind, Predicate, TyParam, Type};
use erg_eval::value::{Value, Visibility};

fn tok(kind: TokenKind, content: &str) -> Token {
    Token { kind, content: content.to_string(), loc: Location::Unknown }
}

fn lit(kind: TokenKind, content: &str) -> Expr {
    Expr::Lit(Literal { token: tok(kind, content) })
}

fn int_lit(text: &str) -> Expr {
    lit(TokenKind::IntLit, text)
}

fn nat_lit(text: &str) -> Expr {
    lit(TokenKind::NatLit, text)
}

fn ident(name: &str) -> Ident {
    Ident { name: name.to_string(), vis: Visibility::Private, loc: Location::Unknown }
}

fn var(name: &str) -> Expr {
    Expr::Accessor(Accessor::Ident(ident(name)))
}

fn bin(op: TokenKind, text: &str, lhs: Expr, rhs: Expr) -> Expr {
    Expr::BinOp(BinOpExpr { op: tok(op, text), lhs: Box::new(lhs), rhs: Box::new(rhs) })
}

fn def(name: &str, body: Expr) -> Expr {
    Expr::Def(Box::new(Def {
        sig: Signature::Var(VarSignature { pat: VarPattern::Ident(ident(name)) }),
        body: DefBody { block: Block { chunks: vec![body] } },
    }))
}

fn module() -> Context {
    Context::builtin_module("main", 1)
}

#[test]
fn literal_arithmetic_adds_ints() {
    let ctx = module();
    let e = bin(TokenKind::Plus, "+", int_lit("1"), int_lit("2"));
    let r = ctx.eval_const_expr(&e, None).unwrap();
    assert!(value_eq(&r, &Value::Int(3)));
}

#[test]
fn constant_lookup_after_def() {
    let mut ctx = module();
    let d = def("X", int_lit("41"));
    let dv = ctx.eval_const_chunk(&d, None).unwrap();
    assert!(value_eq(&dv, &Value::NoneVal));
    let e = bin(TokenKind::Plus, "+", var("X"), int_lit("1"));
    let r = ctx.eval_const_expr(&e, None).unwrap();
    assert!(value_eq(&r, &Value::Int(42)));
}

fn array_of(elem: Type, len: u64) -> Type {
    builtin_poly(
        "Array",
        vec![TyParam::Type(Box::new(elem)), TyParam::Value(Value::Nat(len))],
    )
}

fn register_array_with_add_output(ctx: &mut Context) {
    let mut methods = Context::new("Array::Add", ContextKind::Module, Visibility::Private, 1, "");
    methods.consts.push((
        "Output".to_string(),
        Value::Type(Box::new(builtin_poly(
            "Array",
            vec![TyParam::MonoQVar("T".to_string()), TyParam::MonoQVar("N".to_string())],
        ))),
    ));
    let mut array_ctx = Context::new("Array", ContextKind::Module, Visibility::Private, 1, "");
    array_ctx.params = vec![Some("T".to_string()), Some("N".to_string())];
    array_ctx.methods_list.push((
        ClassDefType::ImplTrait {
            class: builtin_mono("Array"),
            impl_trait: builtin_mono("Add"),
        },
        methods,
    ));
    ctx.register_nominal(NominalEntry {
        typ: builtin_poly(
            "Array",
            vec![TyParam::MonoQVar("T".to_string()), TyParam::MonoQVar("N".to_string())],
        ),
        supers: vec![builtin_mono("Add")],
        ctx: array_ctx,
    });
}

#[test]
fn projection_resolves_against_first_impl() {
    let mut ctx = module();
    register_array_with_add_output(&mut ctx);
    let subject = array_of(Type::Int, 0);
    let proj = mono_proj(subject, "Output".to_string());
    let r = ctx.eval_t_params(proj, 1, Location::Unknown).unwrap();
    assert!(type_eq(&r, &array_of(Type::Int, 0)));
}

#[test]
fn projection_on_never_stays_unresolved() {
    let ctx = module();
    let proj = mono_proj(Type::Never, "Output".to_string());
    let r = ctx.eval_t_params(proj, 1, Location::Unknown).unwrap();
    assert!(type_eq(&r, &mono_proj(Type::Never, "Output".to_string())));
}

#[test]
fn projection_without_candidate_fails() {
    let mut ctx = module();
    register_array_with_add_output(&mut ctx);
    let proj = mono_proj(array_of(Type::Int, 0), "Missing".to_string());
    let e = ctx.eval_t_params(proj, 1, Location::Unknown).unwrap_err();
    assert_eq!(e.kind, ErrorKind::NoCandidate);
}

#[test]
fn refinement_reduces_predicates() {
    let ctx = module();
    let pred = Predicate::Equal {
        lhs: "x".to_string(),
        rhs: TyParam::BinOp {
            op: OpKind::Add,
            lhs: Box::new(TyParam::Value(Value::Int(1))),
            rhs: Box::new(TyParam::Value(Value::Int(1))),
        },
    };
    let t = refinement("x".to_string(), Type::Int, vec![pred]);
    let r = ctx.eval_t_params(t, 1, Location::Unknown).unwrap();
    let want = refinement(
        "x".to_string(),
        Type::Int,
        vec![Predicate::Equal { lhs: "x".to_string(), rhs: TyParam::Value(Value::Int(2)) }],
    );
    assert!(type_eq(&r, &want));
}

#[test]
fn record_preserves_source_order() {
    let ctx = module();
    let rec = Expr::Record(RecordExpr::Normal(vec![
        Def {
            sig: Signature::Var(VarSignature { pat: VarPattern::Ident(ident("a")) }),
            body: DefBody { block: Block { chunks: vec![int_lit("1")] } },
        },
        Def {
            sig: Signature::Var(VarSignature { pat: VarPattern::Ident(ident("b")) }),
            body: DefBody { block: Block { chunks: vec![int_lit("2")] } },
        },
    ]));
    let r = ctx.eval_const_expr(&rec, None).unwrap();
    match &r {
        Value::Record(attrs) => {
            assert_eq!(attrs.len(), 2);
            assert_eq!(attrs[0].0.name, "a");
            assert!(value_eq(&attrs[0].1, &Value::Int(1)));
            assert_eq!(attrs[1].0.name, "b");
            assert!(value_eq(&attrs[1].1, &Value::Int(2)));
        },
        _ => panic!("not a record"),
    }
}

#[test]
fn mutate_wraps_a_fresh_cell() {
    let ctx = module();
    let tp = TyParam::UnaryOp {
        op: OpKind::Mutate,
        val: Box::new(TyParam::Value(Value::Nat(0))),
    };
    let r = ctx.eval_tp(&tp).unwrap();
    assert!(typaram_eq(&r, &TyParam::Value(Value::Mut(Box::new(Value::Nat(0))))));
}

#[test]
fn division_yields_reduced_rationals() {
    let ctx = module();
    let e = bin(TokenKind::Slash, "/", int_lit("6"), int_lit("4"));
    let r = ctx.eval_const_expr(&e, None).unwrap();
    assert!(value_eq(&r, &Value::Ratio { num: 3, den: 2 }));
}

#[test]
fn nat_difference_is_an_int() {
    let ctx = module();
    let e = bin(TokenKind::Minus, "-", nat_lit("3"), nat_lit("5"));
    let r = ctx.eval_const_expr(&e, None).unwrap();
    assert!(value_eq(&r, &Value::Int(-2)));
}

#[test]
fn string_concatenation_under_addition() {
    let ctx = module();
    let e = bin(
        TokenKind::Plus,
        "+",
        lit(TokenKind::StrLit, "\"ab\""),
        lit(TokenKind::StrLit, "\"cd\""),
    );
    let r = ctx.eval_const_expr(&e, None).unwrap();
    assert!(value_eq(&r, &Value::Str("abcd".to_string())));
}

#[test]
fn ratio_literals_reduce_over_powers_of_ten() {
    let ctx = module();
    let e = lit(TokenKind::RatioLit, "3.14");
    let r = ctx.eval_const_expr(&e, None).unwrap();
    assert!(value_eq(&r, &Value::Ratio { num: 157, den: 50 }));
}

#[test]
fn cross_class_numbers_compare_equal() {
    let ctx = module();
    let e = bin(TokenKind::DblEq, "==", int_lit("2"), nat_lit("2"));
    let r = ctx.eval_const_expr(&e, None).unwrap();
    assert!(value_eq(&r, &Value::Bool(true)));
}

#[test]
fn unknown_constant_name_fails() {
    let ctx = module();
    let e = var("Nowhere");
    let err = ctx.eval_const_expr(&e, None).unwrap_err();
    assert_eq!(err.kind, ErrorKind::NoVar);
}

#[test]
fn lowercase_name_is_not_constant() {
    let ctx = module();
    let e = var("nowhere");
    let err = ctx.eval_const_expr(&e, None).unwrap_err();
    assert_eq!(err.kind, ErrorKind::NotConstExpr);
}

#[test]
fn unsupported_operator_is_a_feature_error() {
    let ctx = module();
    let e = bin(TokenKind::Shl, "<<", int_lit("1"), int_lit("2"));
    let err = ctx.eval_const_expr(&e, None).unwrap_err();
    assert_eq!(err.kind, ErrorKind::Feature);
}

#[test]
fn unknown_operator_token_is_refused() {
    let err = try_get_op_kind_from_token(TokenKind::Symbol).unwrap_err();
    assert_eq!(err.kind, ErrorKind::Feature);
    assert_eq!(try_get_op_kind_from_token(TokenKind::Plus).unwrap(), OpKind::Add);
}

#[test]
fn redefinition_is_refused_but_first_binding_stays() {
    let mut ctx = module();
    ctx.eval_const_chunk(&def("X", int_lit("1")), None).unwrap();
    let err = ctx.eval_const_chunk(&def("X", int_lit("2")), None).unwrap_err();
    assert_eq!(err.kind, ErrorKind::Reassign);
    let r = ctx.eval_const_expr(&var("X"), None).unwrap();
    assert!(value_eq(&r, &Value::Int(1)));
}

#[test]
fn attribute_lookup_reads_record_fields() {
    let mut ctx = module();
    let rec = Expr::Record(RecordExpr::Normal(vec![Def {
        sig: Signature::Var(VarSignature { pat: VarPattern::Ident(ident("a")) }),
        body: DefBody { block: Block { chunks: vec![int_lit("7")] } },
    }]));
    ctx.eval_const_chunk(&def("R", rec), None).unwrap();
    let e = Expr::Accessor(Accessor::Attr(erg_eval::ast::AttrAccess {
        obj: Box::new(var("R")),
        ident: ident("a"),
    }));
    let r = ctx.eval_const_expr(&e, None).unwrap();
    assert!(value_eq(&r, &Value::Int(7)));
}

#[test]
fn missing_attribute_fails() {
    let mut ctx = module();
    ctx.eval_const_chunk(&def("X", int_lit("1")), None).unwrap();
    let e = Expr::Accessor(Accessor::Attr(erg_eval::ast::AttrAccess {
        obj: Box::new(var("X")),
        ident: ident("nope"),
    }));
    let err = ctx.eval_const_expr(&e, None).unwrap_err();
    assert_eq!(err.kind, ErrorKind::NoAttr);
}

#[test]
fn native_call_applies_its_operator() {
    let mut ctx = module();
    ctx.consts.push((
        "Plus".to_string(),
        Value::Subr(Box::new(erg_eval::value::ConstSubr::Builtin(
            erg_eval::value::BuiltinConstSubr {
                name: "Plus".to_string(),
                op: erg_eval::value::NativeOp::Bin(OpKind::Add),
            },
        ))),
    ));
    let call = Expr::Call(erg_eval::ast::Call {
        obj: Box::new(var("Plus")),
        args: erg_eval::ast::CallArgs {
            pos_args: vec![
                erg_eval::ast::PosArg { expr: int_lit("20") },
                erg_eval::ast::PosArg { expr: int_lit("22") },
            ],
            kw_args: vec![],
        },
        loc: Location::Line(3),
    });
    let r = ctx.eval_const_expr(&call, None).unwrap();
    assert!(value_eq(&r, &Value::Int(42)));
}

#[test]
fn calling_a_non_subroutine_is_a_type_mismatch() {
    let mut ctx = module();
    ctx.eval_const_chunk(&def("X", int_lit("1")), None).unwrap();
    let call = Expr::Call(erg_eval::ast::Call {
        obj: Box::new(var("X")),
        args: erg_eval::ast::CallArgs { pos_args: vec![], kw_args: vec![] },
        loc: Location::Unknown,
    });
    let err = ctx.eval_const_expr(&call, None).unwrap_err();
    assert_eq!(err.kind, ErrorKind::TypeMismatch);
}

#[test]
fn arrays_evaluate_elementwise() {
    let ctx = module();
    let e = Expr::Array(ArrayExpr::Normal(vec![
        erg_eval::ast::PosArg { expr: bin(TokenKind::Star, "*", int_lit("2"), int_lit("3")) },
        erg_eval::ast::PosArg { expr: int_lit("9") },
    ]));
    let r = ctx.eval_const_expr(&e, None).unwrap();
    assert!(value_eq(&r, &Value::Array(vec![Value::Int(6), Value::Int(9)])));
}

#[test]
fn unary_minus_token_is_not_a_literal_kind() {
    let t = type_from_token_kind(TokenKind::BoolLit);
    assert!(type_eq(&t, &Type::Bool));
}

#[test]
fn shallow_equality_accepts_free_variable_pairs() {
    let ctx = module();
    let l = TyParam::FreeVar(Box::new(erg_eval::ty::FreeTyParam::Unbound {
        name: Some("T".to_string()),
        level: 1,
        t: Box::new(Type::Obj),
    }));
    let r = TyParam::FreeVar(Box::new(erg_eval::ty::FreeTyParam::Unbound {
        name: Some("U".to_string()),
        level: 1,
        t: Box::new(Type::Obj),
    }));
    assert!(ctx.shallow_eq_tp(&l, &r));
    assert!(!ctx.shallow_eq_tp(&TyParam::Value(Value::Int(1)), &TyParam::Value(Value::Int(2))));
}

#[test]
fn shallow_equality_resolves_constant_names() {
    let mut ctx = module();
    ctx.eval_const_chunk(&def("X", int_lit("5")), None).unwrap();
    let l = TyParam::Mono("X".to_string());
    let r = TyParam::Value(Value::Int(5));
    assert!(ctx.shallow_eq_tp(&l, &r));
}

#[test]
fn lambda_evaluates_to_a_subroutine_value() {
    let ctx = module();
    let lam = Expr::Lambda(Box::new(erg_eval::ast::Lambda {
        sig: erg_eval::ast::LambdaSig {
            params: erg_eval::ast::ParamsSig {
                non_defaults: vec![],
                var_args: None,
                defaults: vec![],
            },
            bounds: vec![],
        },
        op: tok(TokenKind::FuncArrow, "->"),
        body: Block { chunks: vec![int_lit("1")] },
    }));
    let r = ctx.eval_const_expr(&lam, None).unwrap();
    assert!(matches!(r, Value::Subr(_)));
}

#[test]
fn scope_balance_on_success_and_failure() {
    let mut ctx = module();
    let before = ctx.consts.len();
    ctx.eval_const_chunk(&def("A", int_lit("1")), None).unwrap();
    assert_eq!(ctx.consts.len(), before + 1);
    let bad = def("B", var("Nowhere"));
    assert!(ctx.eval_const_chunk(&bad, None).is_err());
    assert_eq!(ctx.consts.len(), before + 1);
}

#[test]
fn similar_name_hint_is_case_insensitive() {
    let mut ctx = module();
    ctx.eval_const_chunk(&def("Alpha", int_lit("1")), None).unwrap();
    let err = ctx.eval_const_expr(&var("ALPHA"), None).unwrap_err();
    assert_eq!(err.kind, ErrorKind::NoVar);
    assert_eq!(err.hint.as_deref(), Some("Alpha"));
}

#[test]
fn supertype_of_follows_the_registry() {
    let mut ctx = module();
    register_array_with_add_output(&mut ctx);
    let sub = array_of(Type::Int, 0);
    assert!(ctx.supertype_of(&builtin_mono("Add"), &sub));
    assert!(ctx.supertype_of(&Type::Obj, &Type::Int));
    assert!(ctx.supertype_of(&Type::Int, &Type::Never));
    assert!(!ctx.supertype_of(&Type::Int, &Type::Str));
}
