//! The surface syntax the evaluator consumes.
//!
//! These nodes are inputs handed over by the parser and desugarer; the
//! evaluator only reads them. The contracts of the evaluator match on
//! these nodes directly, so they carry no ghost mirror of their own.

use vstd::prelude::*;
use crate::error::Location;
use crate::value::Visibility;

verus! {

/// The lexical class of a token. Literal kinds pick a ground type;
/// operator kinds map to algebraic operators; the rest are carriers.
#[derive(Clone, Copy, Debug, PartialEq, Eq, Structural)]
pub enum TokenKind {
    NatLit,
    IntLit,
    RatioLit,
    StrLit,
    BoolLit,
    NoneLit,
    NoImplLit,
    EllipsisLit,
    InfLit,
    Plus,
    Minus,
    Star,
    Slash,
    Pow,
    Mod,
    DblEq,
    NotEq,
    Less,
    Gre,
    LessEq,
    GreEq,
    AndOp,
    OrOp,
    BitAnd,
    BitXor,
    BitOr,
    Shl,
    Shr,
    Mutate,
    FuncArrow,
    ProcArrow,
    Symbol,
    Assign,
}

/// A lexed token: its kind, its text, and where it stands in the source.
#[derive(Clone, Debug)]
pub struct Token {
    pub kind: TokenKind,
    pub content: String,
    pub loc: Location,
}

impl Token {
    /// A symbol token without a location, used for internal lookups.
    pub fn symbol(name: &str) -> (r: Token)
        ensures
            r.kind == TokenKind::Symbol,
            r.content@ == name@,
            r.loc == Location::Unknown,
    {
        Token { kind: TokenKind::Symbol, content: name.to_owned(), loc: Location::Unknown }
    }
}

/// A literal expression: one token.
#[derive(Clone, Debug)]
pub struct Literal {
    pub token: Token,
}

/// A possibly qualified name, with its visibility.
#[derive(Clone, Debug)]
pub struct Ident {
    pub name: String,
    pub vis: Visibility,
    pub loc: Location,
}

impl Ident {
    /// Whether the identifier names a compile-time constant. Constant
    /// names start with an ASCII uppercase letter.
    pub fn is_const(&self) -> (r: bool)
        ensures
            r == self.spec_is_const(),
    {
        let n = self.name.as_str();
        if n.unicode_len() == 0 {
            return false;
        }
        let c = n.get_char(0);
        'A' <= c && c <= 'Z'
    }

    pub open spec fn spec_is_const(&self) -> bool {
        self.name@.len() > 0 && 'A' <= self.name@[0] <= 'Z'
    }
}

/// An attribute access `obj.ident`.
#[derive(Debug)]
pub struct AttrAccess {
    pub obj: Box<Expr>,
    pub ident: Ident,
}

/// A name or member access in expression position.
#[derive(Debug)]
pub enum Accessor {
    Ident(Ident),
    Attr(AttrAccess),
    TupleAttr(Box<Expr>),
    Subscr(Box<Expr>),
    TypeApp(Box<Expr>),
}

/// A binary operator application.
#[derive(Debug)]
pub struct BinOpExpr {
    pub op: Token,
    pub lhs: Box<Expr>,
    pub rhs: Box<Expr>,
}

/// A unary operator application.
#[derive(Debug)]
pub struct UnaryOpExpr {
    pub op: Token,
    pub expr: Box<Expr>,
}

/// A positional argument.
#[derive(Debug)]
pub struct PosArg {
    pub expr: Expr,
}

/// A keyword argument.
#[derive(Debug)]
pub struct KwArg {
    pub keyword: String,
    pub expr: Expr,
}

/// The arguments of a call: positional first, then keyword.
#[derive(Debug)]
pub struct CallArgs {
    pub pos_args: Vec<PosArg>,
    pub kw_args: Vec<KwArg>,
}

/// A call expression.
#[derive(Debug)]
pub struct Call {
    pub obj: Box<Expr>,
    pub args: CallArgs,
    pub loc: Location,
}

/// An array literal. Only the normal form is evaluable.
#[derive(Debug)]
pub enum ArrayExpr {
    Normal(Vec<PosArg>),
    WithLength(Box<Expr>, Box<Expr>),
}

/// A record literal. The shortened form is desugared before evaluation.
#[derive(Debug)]
pub enum RecordExpr {
    Normal(Vec<Def>),
    Shortened(Vec<Ident>),
}

/// A variable binding pattern.
#[derive(Clone, Debug)]
pub enum VarPattern {
    Ident(Ident),
    Discard(Token),
    Tuple(Vec<Ident>),
}

/// A variable signature.
#[derive(Clone, Debug)]
pub struct VarSignature {
    pub pat: VarPattern,
}

/// A syntactic type annotation; only plain names are modelled.
#[derive(Clone, Debug)]
pub enum TypeSpecAst {
    Mono(String),
}

/// A syntactic bound on a type variable of a signature.
#[derive(Clone, Debug)]
pub struct TypeBoundSpec {
    pub name: String,
    pub spec: TypeSpecAst,
}

/// One parameter of a subroutine signature.
#[derive(Clone, Debug)]
pub struct ParamSig {
    pub name: Option<String>,
    pub t_spec: Option<TypeSpecAst>,
}

/// The parameter list of a subroutine or lambda.
#[derive(Clone, Debug)]
pub struct ParamsSig {
    pub non_defaults: Vec<ParamSig>,
    pub var_args: Option<Box<ParamSig>>,
    pub defaults: Vec<ParamSig>,
}

/// A subroutine signature.
#[derive(Clone, Debug)]
pub struct SubrSignature {
    pub ident: Ident,
    pub params: ParamsSig,
    pub bounds: Vec<TypeBoundSpec>,
}

/// The signature of a definition.
#[derive(Clone, Debug)]
pub enum Signature {
    Var(VarSignature),
    Subr(SubrSignature),
}

impl Signature {
    /// The defined identifier, for patterns that bind one.
    pub fn ident(&self) -> (r: Option<&Ident>)
        ensures
            r == self.spec_ident(),
    {
        match self {
            Signature::Var(v) => match &v.pat {
                VarPattern::Ident(id) => Some(id),
                _ => None,
            },
            Signature::Subr(s) => Some(&s.ident),
        }
    }

    pub open spec fn spec_ident(&self) -> Option<&Ident> {
        match self {
            Signature::Var(v) => match &v.pat {
                VarPattern::Ident(id) => Some(id),
                _ => None,
            },
            Signature::Subr(s) => Some(&s.ident),
        }
    }

    /// The visibility of the defined name; a pattern that binds no name
    /// is private.
    pub fn vis(&self) -> (r: Visibility)
        ensures
            r == self.spec_vis(),
    {
        match self.ident() {
            Some(id) => id.vis,
            None => Visibility::Private,
        }
    }

    pub open spec fn spec_vis(&self) -> Visibility {
        match self.spec_ident() {
            Some(id) => id.vis,
            None => Visibility::Private,
        }
    }
}

/// The body of a definition.
#[derive(Debug)]
pub struct DefBody {
    pub block: Block,
}

/// A definition `sig = body`.
#[derive(Debug)]
pub struct Def {
    pub sig: Signature,
    pub body: DefBody,
}

impl Def {
    /// A definition is constant when it binds a constant name.
    pub fn is_const(&self) -> (r: bool)
        ensures
            r == self.spec_is_const(),
    {
        match self.sig.ident() {
            Some(id) => id.is_const(),
            None => false,
        }
    }

    pub open spec fn spec_is_const(&self) -> bool {
        match self.sig.spec_ident() {
            Some(id) => id.spec_is_const(),
            None => false,
        }
    }
}

/// The signature of a lambda.
#[derive(Clone, Debug)]
pub struct LambdaSig {
    pub params: ParamsSig,
    pub bounds: Vec<TypeBoundSpec>,
}

/// An anonymous subroutine.
#[derive(Debug)]
pub struct Lambda {
    pub sig: LambdaSig,
    pub op: Token,
    pub body: Block,
}

/// A sequence of expressions evaluated in order; the last one gives the
/// value of the block. The evaluator requires blocks to be non-empty.
#[derive(Debug)]
pub struct Block {
    pub chunks: Vec<Expr>,
}

/// An expression of the surface syntax.
#[derive(Debug)]
pub enum Expr {
    Lit(Literal),
    Accessor(Accessor),
    BinOp(BinOpExpr),
    UnaryOp(UnaryOpExpr),
    Call(Call),
    Def(Box<Def>),
    Array(ArrayExpr),
    Record(RecordExpr),
    Lambda(Box<Lambda>),
    Tuple(Vec<PosArg>),
}

impl Expr {
    /// A best-effort source location for diagnostics.
    pub fn loc(&self) -> Location
        decreases *self,
    {
        match self {
            Expr::Lit(lit) => lit.token.loc,
            Expr::Accessor(acc) => match acc {
                Accessor::Ident(id) => id.loc,
                Accessor::Attr(attr) => attr.ident.loc,
                Accessor::TupleAttr(e) => e.loc(),
                Accessor::Subscr(e) => e.loc(),
                Accessor::TypeApp(e) => e.loc(),
            },
            Expr::BinOp(bin) => bin.op.loc,
            Expr::UnaryOp(un) => un.op.loc,
            Expr::Call(call) => call.loc,
            Expr::Def(def) => match def.sig.ident() {
                Some(id) => id.loc,
                None => Location::Unknown,
            },
            Expr::Array(_) => Location::Unknown,
            Expr::Record(_) => Location::Unknown,
            Expr::Lambda(lam) => lam.op.loc,
            Expr::Tuple(_) => Location::Unknown,
        }
    }
}

impl Block {
    /// A best-effort source location: that of the first chunk.
    pub fn loc(&self) -> Location {
        if self.chunks.len() > 0 {
            proof {
                assert(decreases_to!(*self => self.chunks@[0]));
            }
            self.chunks[0].loc()
        } else {
            Location::Unknown
        }
    }
}

/// Spec-level well-formedness: every block held anywhere inside the
/// term has at least one chunk. The caller of the evaluator guarantees
/// this; it is how the parser delivers programs.
pub open spec fn wf_expr(e: Expr) -> bool
    decreases e,
{
    match e {
        Expr::Lit(lit) => crate::eval::lit_ok(lit),
        Expr::Accessor(acc) => wf_acc(acc),
        Expr::BinOp(bin) => wf_expr(*bin.lhs) && wf_expr(*bin.rhs),
        Expr::UnaryOp(un) => wf_expr(*un.expr),
        Expr::Call(call) => wf_expr(*call.obj) && wf_pos_args(call.args.pos_args@)
            && wf_kw_args(call.args.kw_args@),
        Expr::Def(def) => wf_block((*def).body.block),
        Expr::Array(arr) => match arr {
            ArrayExpr::Normal(elems) => wf_pos_args(elems@),
            ArrayExpr::WithLength(a, b) => wf_expr(*a) && wf_expr(*b),
        },
        Expr::Record(rec) => match rec {
            RecordExpr::Normal(defs) => wf_defs(defs@),
            RecordExpr::Shortened(_) => true,
        },
        Expr::Lambda(lam) => wf_block((*lam).body),
        Expr::Tuple(elems) => wf_pos_args(elems@),
    }
}

pub open spec fn wf_acc(acc: Accessor) -> bool
    decreases acc,
{
    match acc {
        Accessor::Ident(_) => true,
        Accessor::Attr(attr) => wf_expr(*attr.obj),
        Accessor::TupleAttr(inner) => wf_expr(*inner),
        Accessor::Subscr(inner) => wf_expr(*inner),
        Accessor::TypeApp(inner) => wf_expr(*inner),
    }
}

pub open spec fn wf_block(b: Block) -> bool
    decreases b,
{
    b.chunks@.len() > 0 && wf_exprs(b.chunks@)
}

pub open spec fn wf_exprs(s: Seq<Expr>) -> bool
    decreases s,
{
    if s.len() == 0 {
        true
    } else {
        wf_exprs(s.drop_last()) && wf_expr(s.last())
    }
}

pub open spec fn wf_pos_args(s: Seq<PosArg>) -> bool
    decreases s,
{
    if s.len() == 0 {
        true
    } else {
        wf_pos_args(s.drop_last()) && wf_expr(s.last().expr)
    }
}

pub open spec fn wf_kw_args(s: Seq<KwArg>) -> bool
    decreases s,
{
    if s.len() == 0 {
        true
    } else {
        wf_kw_args(s.drop_last()) && wf_expr(s.last().expr)
    }
}

pub open spec fn wf_defs(s: Seq<Def>) -> bool
    decreases s,
{
    if s.len() == 0 {
        true
    } else {
        wf_defs(s.drop_last()) && wf_block(s.last().body.block)
    }
}

/// Every element of a well-formed sequence is well-formed.
pub proof fn lemma_wf_exprs_index(s: Seq<Expr>, i: int)
    requires
        wf_exprs(s),
        0 <= i < s.len(),
    ensures
        wf_expr(s[i]),
    decreases s,
{
    if i < s.len() - 1 {
        lemma_wf_exprs_index(s.drop_last(), i);
    }
}

pub proof fn lemma_wf_pos_args_index(s: Seq<PosArg>, i: int)
    requires
        wf_pos_args(s),
        0 <= i < s.len(),
    ensures
        wf_expr(s[i].expr),
    decreases s,
{
    if i < s.len() - 1 {
        lemma_wf_pos_args_index(s.drop_last(), i);
    }
}

pub proof fn lemma_wf_kw_args_index(s: Seq<KwArg>, i: int)
    requires
        wf_kw_args(s),
        0 <= i < s.len(),
    ensures
        wf_expr(s[i].expr),
    decreases s,
{
    if i < s.len() - 1 {
        lemma_wf_kw_args_index(s.drop_last(), i);
    }
}

pub proof fn lemma_wf_defs_index(s: Seq<Def>, i: int)
    requires
        wf_defs(s),
        0 <= i < s.len(),
    ensures
        wf_block(s[i].body.block),
    decreases s,
{
    if i < s.len() - 1 {
        lemma_wf_defs_index(s.drop_last(), i);
    }
}


// ---------------------------------------------------------------------
// Duplication. The evaluator wraps a lambda's parameters and body into
// a subroutine value; these functions produce the copies it stores.
// ---------------------------------------------------------------------

pub fn dup_expr(e: &Expr) -> Expr
    decreases *e,
{
    match e {
        Expr::Lit(lit) => Expr::Lit(lit.clone()),
        Expr::Accessor(acc) => Expr::Accessor(dup_accessor(acc)),
        Expr::BinOp(bin) => Expr::BinOp(
            BinOpExpr {
                op: bin.op.clone(),
                lhs: Box::new(dup_expr(&bin.lhs)),
                rhs: Box::new(dup_expr(&bin.rhs)),
            },
        ),
        Expr::UnaryOp(un) => Expr::UnaryOp(
            UnaryOpExpr { op: un.op.clone(), expr: Box::new(dup_expr(&un.expr)) },
        ),
        Expr::Call(call) => Expr::Call(
            Call { obj: Box::new(dup_expr(&call.obj)), args: dup_call_args(&call.args), loc: call.loc },
        ),
        Expr::Def(def) => Expr::Def(Box::new(dup_def(def))),
        Expr::Array(arr) => Expr::Array(
            match arr {
                ArrayExpr::Normal(elems) => ArrayExpr::Normal(dup_pos_args(elems)),
                ArrayExpr::WithLength(a, b) => ArrayExpr::WithLength(
                    Box::new(dup_expr(a)),
                    Box::new(dup_expr(b)),
                ),
            },
        ),
        Expr::Record(rec) => Expr::Record(
            match rec {
                RecordExpr::Normal(defs) => RecordExpr::Normal(dup_defs(defs)),
                RecordExpr::Shortened(ids) => RecordExpr::Shortened(dup_idents(ids)),
            },
        ),
        Expr::Lambda(lam) => Expr::Lambda(Box::new(dup_lambda(lam))),
        Expr::Tuple(elems) => Expr::Tuple(dup_pos_args(elems)),
    }
}

pub fn dup_accessor(acc: &Accessor) -> Accessor
    decreases *acc,
{
    match acc {
        Accessor::Ident(id) => Accessor::Ident(id.clone()),
        Accessor::Attr(attr) => Accessor::Attr(
            AttrAccess { obj: Box::new(dup_expr(&attr.obj)), ident: attr.ident.clone() },
        ),
        Accessor::TupleAttr(e) => Accessor::TupleAttr(Box::new(dup_expr(e))),
        Accessor::Subscr(e) => Accessor::Subscr(Box::new(dup_expr(e))),
        Accessor::TypeApp(e) => Accessor::TypeApp(Box::new(dup_expr(e))),
    }
}

#[verifier::loop_isolation(false)]
pub fn dup_pos_args(args: &Vec<PosArg>) -> Vec<PosArg>
    decreases args@,
{
    let mut out: Vec<PosArg> = Vec::new();
    let n = args.len();
    let mut i: usize = 0;
    while i < n
        invariant
            i <= n,
        decreases n - i,
    {
        proof {
            assert(decreases_to!(args@ => args@[i as int]));
            assert(decreases_to!(args@[i as int] => args@[i as int].expr));
        }
        out.push(PosArg { expr: dup_expr(&args[i].expr) });
        i = i + 1;
    }
    out
}

#[verifier::loop_isolation(false)]
pub fn dup_kw_args(args: &Vec<KwArg>) -> Vec<KwArg>
    decreases args@,
{
    let mut out: Vec<KwArg> = Vec::new();
    let n = args.len();
    let mut i: usize = 0;
    while i < n
        invariant
            i <= n,
        decreases n - i,
    {
        proof {
            assert(decreases_to!(args@ => args@[i as int]));
            assert(decreases_to!(args@[i as int] => args@[i as int].expr));
        }
        out.push(KwArg { keyword: args[i].keyword.clone(), expr: dup_expr(&args[i].expr) });
        i = i + 1;
    }
    out
}

pub fn dup_call_args(args: &CallArgs) -> CallArgs
    decreases *args,
{
    CallArgs { pos_args: dup_pos_args(&args.pos_args), kw_args: dup_kw_args(&args.kw_args) }
}

#[verifier::loop_isolation(false)]
pub fn dup_defs(defs: &Vec<Def>) -> Vec<Def>
    decreases defs@,
{
    let mut out: Vec<Def> = Vec::new();
    let n = defs.len();
    let mut i: usize = 0;
    while i < n
        invariant
            i <= n,
        decreases n - i,
    {
        proof {
            assert(decreases_to!(defs@ => defs@[i as int]));
        }
        out.push(dup_def(&defs[i]));
        i = i + 1;
    }
    out
}

#[verifier::loop_isolation(false)]
pub fn dup_idents(ids: &Vec<Ident>) -> Vec<Ident> {
    let mut out: Vec<Ident> = Vec::new();
    let n = ids.len();
    let mut i: usize = 0;
    while i < n
        invariant
            i <= n,
        decreases n - i,
    {
        out.push(ids[i].clone());
        i = i + 1;
    }
    out
}

pub fn dup_def(def: &Def) -> Def
    decreases *def,
{
    Def { sig: def.sig.clone(), body: DefBody { block: dup_block(&def.body.block) } }
}

#[verifier::loop_isolation(false)]
pub fn dup_block(b: &Block) -> Block
    decreases *b,
{
    let mut out: Vec<Expr> = Vec::new();
    let n = b.chunks.len();
    let mut i: usize = 0;
    while i < n
        invariant
            i <= n,
        decreases n - i,
    {
        proof {
            assert(decreases_to!(*b => b.chunks));
            assert(decreases_to!(b.chunks@ => b.chunks@[i as int]));
        }
        out.push(dup_expr(&b.chunks[i]));
        i = i + 1;
    }
    Block { chunks: out }
}

pub fn dup_lambda(lam: &Lambda) -> Lambda
    decreases *lam,
{
    Lambda { sig: lam.sig.clone(), op: lam.op.clone(), body: dup_block(&lam.body) }
}

} // verus!
