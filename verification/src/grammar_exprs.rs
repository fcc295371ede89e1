use vstd::prelude::*;
use proc_macro2::TokenStream;
use quote::ToTokens;
use syn::Expr;
use crate::errors::Fault;
use crate::grammar_pats::pat_is_typed;
use crate::parts::{LeadChild, ListParts, OptChildParts, PairParts, PatChild, WrapParts};
use crate::tokens::ts_trees;

verus! {

/// An expression parsed at the union level, still unclassified: the
/// opaque `syn::Expr`.
#[verifier::external_type_specification]
#[verifier::external_body]
pub struct ExExpr(syn::Expr);

/// A classified expression: each catalog-known variant with its own
/// tokens, an opaque verbatim run, or any other form kept whole.
pub enum ExprShape {
    Array(proc_macro2::TokenStream),
    Assign(proc_macro2::TokenStream),
    AssignOp(proc_macro2::TokenStream),
    Async(proc_macro2::TokenStream),
    Await(proc_macro2::TokenStream),
    Binary(proc_macro2::TokenStream),
    Block(proc_macro2::TokenStream),
    Box(proc_macro2::TokenStream),
    Break(proc_macro2::TokenStream),
    Call(proc_macro2::TokenStream),
    Cast(proc_macro2::TokenStream),
    Closure(proc_macro2::TokenStream),
    Continue(proc_macro2::TokenStream),
    Field(proc_macro2::TokenStream),
    ForLoop(proc_macro2::TokenStream),
    Group(proc_macro2::TokenStream),
    If(proc_macro2::TokenStream),
    Index(proc_macro2::TokenStream),
    Let(proc_macro2::TokenStream),
    Lit(proc_macro2::TokenStream),
    Loop(proc_macro2::TokenStream),
    Macro(proc_macro2::TokenStream),
    Match(proc_macro2::TokenStream),
    MethodCall(proc_macro2::TokenStream),
    Paren(proc_macro2::TokenStream),
    Path(proc_macro2::TokenStream),
    Range(proc_macro2::TokenStream),
    Reference(proc_macro2::TokenStream),
    Repeat(proc_macro2::TokenStream),
    Return(proc_macro2::TokenStream),
    Struct(proc_macro2::TokenStream),
    Try(proc_macro2::TokenStream),
    TryBlock(proc_macro2::TokenStream),
    Tuple(proc_macro2::TokenStream),
    Type(proc_macro2::TokenStream),
    Unary(proc_macro2::TokenStream),
    Unsafe(proc_macro2::TokenStream),
    Verbatim(proc_macro2::TokenStream),
    While(proc_macro2::TokenStream),
    Yield(proc_macro2::TokenStream),
    /// A form the catalog does not special-case.
    Other(proc_macro2::TokenStream),
}

/// The parts of a call expression: attributes verbatim, the callee and
/// each argument rewritable.
pub struct CallParts {
    /// Attributes, verbatim.
    pub head: proc_macro2::TokenStream,
    /// The callee expression's own tokens.
    pub func: proc_macro2::TokenStream,
    /// The arguments, in order.
    pub args: Vec<proc_macro2::TokenStream>,
}

/// The parts of a closure expression: its lead through the opening bar
/// verbatim, each input pattern rewritable, the closing bar and return
/// type verbatim, and the body expression rewritable.
pub struct ClosureParts {
    /// Attributes, `static`, `async`, `move` and the opening bar,
    /// verbatim.
    pub head: proc_macro2::TokenStream,
    /// The input patterns, in order, each marked when it carries a type
    /// annotation.
    pub inputs: Vec<PatChild>,
    /// The closing bar and return type, verbatim.
    pub mid: proc_macro2::TokenStream,
    /// The body expression's own tokens.
    pub body: proc_macro2::TokenStream,
}

/// The parts of a `for` loop: its lead verbatim, then pattern, iterated
/// expression and body, all three rewritable around the verbatim `in`.
pub struct ForParts {
    /// Attributes, label and `for`, verbatim.
    pub head: proc_macro2::TokenStream,
    /// The loop pattern's own tokens.
    pub pat: proc_macro2::TokenStream,
    /// The `in` keyword, verbatim.
    pub mid: proc_macro2::TokenStream,
    /// The iterated expression's own tokens.
    pub expr: proc_macro2::TokenStream,
    /// The body block's own tokens.
    pub body: proc_macro2::TokenStream,
}

/// The parts of an `if` expression: condition and then-block rewritable,
/// and the else-branch expression, if any, behind its verbatim `else`.
pub struct IfParts {
    /// Attributes and `if`, verbatim.
    pub head: proc_macro2::TokenStream,
    /// The condition expression's own tokens.
    pub cond: proc_macro2::TokenStream,
    /// The then-branch block's own tokens.
    pub then_block: proc_macro2::TokenStream,
    /// The else branch, if any: its `else` lead and its expression.
    pub els: Option<LeadChild>,
}

/// The parts of a `match` expression: the scrutinee rewritable, then
/// every arm rewritable inside the braces.
pub struct MatchParts {
    /// Attributes and `match`, verbatim.
    pub head: proc_macro2::TokenStream,
    /// The scrutinee expression's own tokens.
    pub expr: proc_macro2::TokenStream,
    /// The arms, in order.
    pub arms: Vec<proc_macro2::TokenStream>,
}

/// The parts of a method call: the receiver rewritable, the dot, name
/// and turbofish verbatim, each argument rewritable.
pub struct MethodCallParts {
    /// Attributes, verbatim.
    pub head: proc_macro2::TokenStream,
    /// The receiver expression's own tokens.
    pub receiver: proc_macro2::TokenStream,
    /// The dot, method name and turbofish, verbatim.
    pub mid: proc_macro2::TokenStream,
    /// The arguments, in order.
    pub args: Vec<proc_macro2::TokenStream>,
}

/// The parts of a range expression: both bounds optional and
/// rewritable around the verbatim range operator.
pub struct RangeParts {
    /// Attributes, verbatim.
    pub head: proc_macro2::TokenStream,
    /// The lower bound's own tokens, if present.
    pub from: Option<proc_macro2::TokenStream>,
    /// The range operator, verbatim.
    pub mid: proc_macro2::TokenStream,
    /// The upper bound's own tokens, if present.
    pub to: Option<proc_macro2::TokenStream>,
}

/// The parts of a struct expression: path verbatim, each field value
/// rewritable, then the optional `..` marker and rest expression.
pub struct StructExprParts {
    /// Attributes and the struct path, verbatim.
    pub head: proc_macro2::TokenStream,
    /// The field values, in order.
    pub fields: Vec<proc_macro2::TokenStream>,
    /// The `..` marker, if any.
    pub dot2: Option<proc_macro2::TokenStream>,
    /// The rest expression's own tokens, if any.
    pub rest: Option<proc_macro2::TokenStream>,
}

/// The parts of a match arm: the pattern rewritable, the optional guard
/// expression behind its verbatim `if`, the arrow verbatim, the body
/// rewritable, and the optional trailing comma.
pub struct ArmParts {
    /// Attributes, verbatim.
    pub head: proc_macro2::TokenStream,
    /// The arm pattern's own tokens.
    pub pat: proc_macro2::TokenStream,
    /// The guard, if any: its `if` lead and its expression.
    pub guard: Option<LeadChild>,
    /// The fat arrow, verbatim.
    pub mid: proc_macro2::TokenStream,
    /// The body expression's own tokens.
    pub body: proc_macro2::TokenStream,
    /// The trailing comma, if any.
    pub tail: proc_macro2::TokenStream,
}

/// Whether a snippet parses as an expression: a function of its
/// tokens.
pub uninterp spec fn expr_parse_ok(t: proc_macro2::TokenStream) -> bool;

/// The catalog kind a classified expression routes to, if it has one.
pub fn expr_shape_kind(shape: &ExprShape) -> (r: Option<crate::kinds::CallbackType>)
    ensures
        (shape matches ExprShape::Other(_)) <==> r is None,
{
    match shape {
        ExprShape::Array(_) => Some(crate::kinds::CallbackType::ExprArray),
        ExprShape::Assign(_) => Some(crate::kinds::CallbackType::ExprAssign),
        ExprShape::AssignOp(_) => Some(crate::kinds::CallbackType::ExprAssignOp),
        ExprShape::Async(_) => Some(crate::kinds::CallbackType::ExprAsync),
        ExprShape::Await(_) => Some(crate::kinds::CallbackType::ExprAwait),
        ExprShape::Binary(_) => Some(crate::kinds::CallbackType::ExprBinary),
        ExprShape::Block(_) => Some(crate::kinds::CallbackType::ExprBlock),
        ExprShape::Box(_) => Some(crate::kinds::CallbackType::ExprBox),
        ExprShape::Break(_) => Some(crate::kinds::CallbackType::ExprBreak),
        ExprShape::Call(_) => Some(crate::kinds::CallbackType::ExprCall),
        ExprShape::Cast(_) => Some(crate::kinds::CallbackType::ExprCast),
        ExprShape::Closure(_) => Some(crate::kinds::CallbackType::ExprClosure),
        ExprShape::Continue(_) => Some(crate::kinds::CallbackType::ExprContinue),
        ExprShape::Field(_) => Some(crate::kinds::CallbackType::ExprField),
        ExprShape::ForLoop(_) => Some(crate::kinds::CallbackType::ExprForLoop),
        ExprShape::Group(_) => Some(crate::kinds::CallbackType::ExprGroup),
        ExprShape::If(_) => Some(crate::kinds::CallbackType::ExprIf),
        ExprShape::Index(_) => Some(crate::kinds::CallbackType::ExprIndex),
        ExprShape::Let(_) => Some(crate::kinds::CallbackType::ExprLet),
        ExprShape::Lit(_) => Some(crate::kinds::CallbackType::ExprLit),
        ExprShape::Loop(_) => Some(crate::kinds::CallbackType::ExprLoop),
        ExprShape::Macro(_) => Some(crate::kinds::CallbackType::ExprMacro),
        ExprShape::Match(_) => Some(crate::kinds::CallbackType::ExprMatch),
        ExprShape::MethodCall(_) => Some(crate::kinds::CallbackType::ExprMethodCall),
        ExprShape::Paren(_) => Some(crate::kinds::CallbackType::ExprParen),
        ExprShape::Path(_) => Some(crate::kinds::CallbackType::ExprPath),
        ExprShape::Range(_) => Some(crate::kinds::CallbackType::ExprRange),
        ExprShape::Reference(_) => Some(crate::kinds::CallbackType::ExprReference),
        ExprShape::Repeat(_) => Some(crate::kinds::CallbackType::ExprRepeat),
        ExprShape::Return(_) => Some(crate::kinds::CallbackType::ExprReturn),
        ExprShape::Struct(_) => Some(crate::kinds::CallbackType::ExprStruct),
        ExprShape::Try(_) => Some(crate::kinds::CallbackType::ExprTry),
        ExprShape::TryBlock(_) => Some(crate::kinds::CallbackType::ExprTryBlock),
        ExprShape::Tuple(_) => Some(crate::kinds::CallbackType::ExprTuple),
        ExprShape::Type(_) => Some(crate::kinds::CallbackType::ExprType),
        ExprShape::Unary(_) => Some(crate::kinds::CallbackType::ExprUnary),
        ExprShape::Unsafe(_) => Some(crate::kinds::CallbackType::ExprUnsafe),
        ExprShape::Verbatim(_) => Some(crate::kinds::CallbackType::Verbatim),
        ExprShape::While(_) => Some(crate::kinds::CallbackType::ExprWhile),
        ExprShape::Yield(_) => Some(crate::kinds::CallbackType::ExprYield),
        ExprShape::Other(_) => None,
    }
}

/// Relies on `syn::parse2::<syn::Expr>`: parses the snippet as one
/// expression.
#[verifier::external_body]
pub(crate) fn parse_expr(tokens: &proc_macro2::TokenStream) -> (r: Result<syn::Expr, Fault>)
    ensures
        r matches Ok(_) ==> expr_parse_ok(*tokens),
        r matches Err(e) ==> !expr_parse_ok(*tokens) && e matches Fault::Grammar(_),
{
    match syn::parse2::<syn::Expr>(tokens.clone()) {
        Ok(n) => Ok(n),
        Err(e) => Err(Fault::Grammar(e)),
    }
}

/// Relies on `quote::ToTokens`: tells one run of `syn::Expr`'s variants
/// apart, handing each back as its own tokens.
#[verifier::external_body]
pub(crate) fn expr_shape_a(expr: &Expr) -> Option<ExprShape> {
    match expr {
        Expr::Array(n) => Some(ExprShape::Array(n.to_token_stream())),
        Expr::Assign(n) => Some(ExprShape::Assign(n.to_token_stream())),
        Expr::AssignOp(n) => Some(ExprShape::AssignOp(n.to_token_stream())),
        Expr::Async(n) => Some(ExprShape::Async(n.to_token_stream())),
        Expr::Await(n) => Some(ExprShape::Await(n.to_token_stream())),
        Expr::Binary(n) => Some(ExprShape::Binary(n.to_token_stream())),
        _ => None,
    }
}

/// Relies on `quote::ToTokens`: tells one run of `syn::Expr`'s variants
/// apart, handing each back as its own tokens.
#[verifier::external_body]
pub(crate) fn expr_shape_b(expr: &Expr) -> Option<ExprShape> {
    match expr {
        Expr::Block(n) => Some(ExprShape::Block(n.to_token_stream())),
        Expr::Box(n) => Some(ExprShape::Box(n.to_token_stream())),
        Expr::Break(n) => Some(ExprShape::Break(n.to_token_stream())),
        Expr::Call(n) => Some(ExprShape::Call(n.to_token_stream())),
        Expr::Cast(n) => Some(ExprShape::Cast(n.to_token_stream())),
        Expr::Closure(n) => Some(ExprShape::Closure(n.to_token_stream())),
        _ => None,
    }
}

/// Relies on `quote::ToTokens`: tells one run of `syn::Expr`'s variants
/// apart, handing each back as its own tokens.
#[verifier::external_body]
pub(crate) fn expr_shape_c(expr: &Expr) -> Option<ExprShape> {
    match expr {
        Expr::Continue(n) => Some(ExprShape::Continue(n.to_token_stream())),
        Expr::Field(n) => Some(ExprShape::Field(n.to_token_stream())),
        Expr::ForLoop(n) => Some(ExprShape::ForLoop(n.to_token_stream())),
        Expr::Group(n) => Some(ExprShape::Group(n.to_token_stream())),
        Expr::If(n) => Some(ExprShape::If(n.to_token_stream())),
        Expr::Index(n) => Some(ExprShape::Index(n.to_token_stream())),
        _ => None,
    }
}

/// Relies on `quote::ToTokens`: tells one run of `syn::Expr`'s variants
/// apart, handing each back as its own tokens.
#[verifier::external_body]
pub(crate) fn expr_shape_d(expr: &Expr) -> Option<ExprShape> {
    match expr {
        Expr::Let(n) => Some(ExprShape::Let(n.to_token_stream())),
        Expr::Lit(n) => Some(ExprShape::Lit(n.to_token_stream())),
        Expr::Loop(n) => Some(ExprShape::Loop(n.to_token_stream())),
        Expr::Macro(n) => Some(ExprShape::Macro(n.to_token_stream())),
        Expr::Match(n) => Some(ExprShape::Match(n.to_token_stream())),
        Expr::MethodCall(n) => Some(ExprShape::MethodCall(n.to_token_stream())),
        _ => None,
    }
}

/// Relies on `quote::ToTokens`: tells one run of `syn::Expr`'s variants
/// apart, handing each back as its own tokens.
#[verifier::external_body]
pub(crate) fn expr_shape_e(expr: &Expr) -> Option<ExprShape> {
    match expr {
        Expr::Paren(n) => Some(ExprShape::Paren(n.to_token_stream())),
        Expr::Path(n) => Some(ExprShape::Path(n.to_token_stream())),
        Expr::Range(n) => Some(ExprShape::Range(n.to_token_stream())),
        Expr::Reference(n) => Some(ExprShape::Reference(n.to_token_stream())),
        Expr::Repeat(n) => Some(ExprShape::Repeat(n.to_token_stream())),
        Expr::Return(n) => Some(ExprShape::Return(n.to_token_stream())),
        _ => None,
    }
}

/// Relies on `quote::ToTokens`: tells one run of `syn::Expr`'s variants
/// apart, handing each back as its own tokens.
#[verifier::external_body]
pub(crate) fn expr_shape_f(expr: &Expr) -> Option<ExprShape> {
    match expr {
        Expr::Struct(n) => Some(ExprShape::Struct(n.to_token_stream())),
        Expr::Try(n) => Some(ExprShape::Try(n.to_token_stream())),
        Expr::TryBlock(n) => Some(ExprShape::TryBlock(n.to_token_stream())),
        Expr::Tuple(n) => Some(ExprShape::Tuple(n.to_token_stream())),
        Expr::Type(n) => Some(ExprShape::Type(n.to_token_stream())),
        Expr::Unary(n) => Some(ExprShape::Unary(n.to_token_stream())),
        _ => None,
    }
}

/// Relies on `quote::ToTokens`: tells the variants of `syn::Expr` apart
/// that the other classifiers do not, handing each back as its own
/// tokens.
#[verifier::external_body]
pub(crate) fn expr_shape_g(expr: &Expr) -> ExprShape {
    match expr {
        Expr::Unsafe(n) => ExprShape::Unsafe(n.to_token_stream()),
        Expr::Verbatim(ts) => ExprShape::Verbatim(ts.clone()),
        Expr::While(n) => ExprShape::While(n.to_token_stream()),
        Expr::Yield(n) => ExprShape::Yield(n.to_token_stream()),
        other => ExprShape::Other(other.to_token_stream()),
    }
}

/// Classifies a parsed expression, trying each run of variants in turn.
pub(crate) fn expr_shape(expr: &syn::Expr) -> ExprShape {
    if let Some(s) = expr_shape_a(expr) {
        return s;
    }
    if let Some(s) = expr_shape_b(expr) {
        return s;
    }
    if let Some(s) = expr_shape_c(expr) {
        return s;
    }
    if let Some(s) = expr_shape_d(expr) {
        return s;
    }
    if let Some(s) = expr_shape_e(expr) {
        return s;
    }
    if let Some(s) = expr_shape_f(expr) {
        return s;
    }
    expr_shape_g(expr)
}

/// How a snippet splits as this expression form, when it parses as
/// one: the trees of its verbatim head and of each element, a function
/// of its tokens.
pub uninterp spec fn expr_array_model(t: proc_macro2::TokenStream) -> Option<(Seq<int>, Seq<Seq<int>>)>;

/// Relies on `syn::parse2::<syn::ExprArray>` and `quote::ToTokens`:
/// splits an array expression into its attributes and its elements.
#[verifier::external_body]
pub(crate) fn parse_expr_array(tokens: &proc_macro2::TokenStream) -> (r: Result<ListParts, Fault>)
    ensures
        r matches Ok(p) ==> expr_array_model(*tokens) == Some(
            (ts_trees(p.head), p.elems@.map_values(|e: proc_macro2::TokenStream| ts_trees(e))),
        ),
        r matches Err(e) ==> expr_array_model(*tokens) is None && e matches Fault::Grammar(_),
{
    let n: syn::ExprArray = match syn::parse2(tokens.clone()) { Ok(n) => n, Err(e) => return Err(Fault::Grammar(e)) };
    let mut h = TokenStream::new();
    for a in &n.attrs { a.to_tokens(&mut h); }
    let elems = n.elems.iter().map(|e| e.to_token_stream()).collect();
    Ok(ListParts { head: h, elems, tail: TokenStream::new() })
}

/// How a snippet splits as this expression form, when it parses as
/// one: the trees of its verbatim head, two rewritable children, the
/// verbatim middle and tail, a function of its tokens.
pub uninterp spec fn expr_assign_model(t: proc_macro2::TokenStream) -> Option<(Seq<int>, Seq<int>, Seq<int>, Seq<int>, Seq<int>)>;

/// Relies on `syn::parse2::<syn::ExprAssign>` and `quote::ToTokens`:
/// splits an assignment around its two sides.
#[verifier::external_body]
pub(crate) fn parse_expr_assign(tokens: &proc_macro2::TokenStream) -> (r: Result<PairParts, Fault>)
    ensures
        r matches Ok(p) ==> expr_assign_model(*tokens) == Some(
            (ts_trees(p.head), ts_trees(p.first), ts_trees(p.mid), ts_trees(p.second), ts_trees(p.tail)),
        ),
        r matches Err(e) ==> expr_assign_model(*tokens) is None && e matches Fault::Grammar(_),
{
    let n: syn::ExprAssign = match syn::parse2(tokens.clone()) { Ok(n) => n, Err(e) => return Err(Fault::Grammar(e)) };
    let mut h = TokenStream::new();
    for a in &n.attrs { a.to_tokens(&mut h); }
    Ok(PairParts {
        head: h,
        first: n.left.to_token_stream(),
        mid: n.eq_token.to_token_stream(),
        second: n.right.to_token_stream(),
        tail: TokenStream::new(),
    })
}

/// How a snippet splits as this expression form, when it parses as
/// one: the trees of its verbatim head, two rewritable children, the
/// verbatim middle and tail, a function of its tokens.
pub uninterp spec fn expr_assign_op_model(t: proc_macro2::TokenStream) -> Option<(Seq<int>, Seq<int>, Seq<int>, Seq<int>, Seq<int>)>;

/// Relies on `syn::parse2::<syn::ExprAssignOp>` and `quote::ToTokens`:
/// splits a compound assignment around its two sides.
#[verifier::external_body]
pub(crate) fn parse_expr_assign_op(tokens: &proc_macro2::TokenStream) -> (r: Result<PairParts, Fault>)
    ensures
        r matches Ok(p) ==> expr_assign_op_model(*tokens) == Some(
            (ts_trees(p.head), ts_trees(p.first), ts_trees(p.mid), ts_trees(p.second), ts_trees(p.tail)),
        ),
        r matches Err(e) ==> expr_assign_op_model(*tokens) is None && e matches Fault::Grammar(_),
{
    let n: syn::ExprAssignOp = match syn::parse2(tokens.clone()) { Ok(n) => n, Err(e) => return Err(Fault::Grammar(e)) };
    let mut h = TokenStream::new();
    for a in &n.attrs { a.to_tokens(&mut h); }
    Ok(PairParts {
        head: h,
        first: n.left.to_token_stream(),
        mid: n.op.to_token_stream(),
        second: n.right.to_token_stream(),
        tail: TokenStream::new(),
    })
}

/// How a snippet splits as this expression form, when it parses as
/// one: the trees of its verbatim head, its rewritable child and its
/// verbatim tail, a function of its tokens.
pub uninterp spec fn expr_async_model(t: proc_macro2::TokenStream) -> Option<(Seq<int>, Seq<int>, Seq<int>)>;

/// Relies on `syn::parse2::<syn::ExprAsync>` and `quote::ToTokens`:
/// splits an async block around its body block.
#[verifier::external_body]
pub(crate) fn parse_expr_async(tokens: &proc_macro2::TokenStream) -> (r: Result<WrapParts, Fault>)
    ensures
        r matches Ok(p) ==> expr_async_model(*tokens) == Some(
            (ts_trees(p.head), ts_trees(p.inner), ts_trees(p.tail)),
        ),
        r matches Err(e) ==> expr_async_model(*tokens) is None && e matches Fault::Grammar(_),
{
    let n: syn::ExprAsync = match syn::parse2(tokens.clone()) { Ok(n) => n, Err(e) => return Err(Fault::Grammar(e)) };
    let mut h = TokenStream::new();
    for a in &n.attrs { a.to_tokens(&mut h); }
    n.async_token.to_tokens(&mut h);
    n.capture.to_tokens(&mut h);
    Ok(WrapParts { head: h, inner: n.block.to_token_stream(), tail: TokenStream::new() })
}

/// How a snippet splits as this expression form, when it parses as
/// one: the trees of its verbatim head, its rewritable child and its
/// verbatim tail, a function of its tokens.
pub uninterp spec fn expr_await_model(t: proc_macro2::TokenStream) -> Option<(Seq<int>, Seq<int>, Seq<int>)>;

/// Relies on `syn::parse2::<syn::ExprAwait>` and `quote::ToTokens`:
/// splits an await expression around its base expression.
#[verifier::external_body]
pub(crate) fn parse_expr_await(tokens: &proc_macro2::TokenStream) -> (r: Result<WrapParts, Fault>)
    ensures
        r matches Ok(p) ==> expr_await_model(*tokens) == Some(
            (ts_trees(p.head), ts_trees(p.inner), ts_trees(p.tail)),
        ),
        r matches Err(e) ==> expr_await_model(*tokens) is None && e matches Fault::Grammar(_),
{
    let n: syn::ExprAwait = match syn::parse2(tokens.clone()) { Ok(n) => n, Err(e) => return Err(Fault::Grammar(e)) };
    let mut h = TokenStream::new();
    for a in &n.attrs { a.to_tokens(&mut h); }
    let mut tail = n.dot_token.to_token_stream();
    n.await_token.to_tokens(&mut tail);
    Ok(WrapParts { head: h, inner: n.base.to_token_stream(), tail })
}

/// How a snippet splits as this expression form, when it parses as
/// one: the trees of its verbatim head, two rewritable children, the
/// verbatim middle and tail, a function of its tokens.
pub uninterp spec fn expr_binary_model(t: proc_macro2::TokenStream) -> Option<(Seq<int>, Seq<int>, Seq<int>, Seq<int>, Seq<int>)>;

/// Relies on `syn::parse2::<syn::ExprBinary>` and `quote::ToTokens`:
/// splits a binary expression around its two operands.
#[verifier::external_body]
pub(crate) fn parse_expr_binary(tokens: &proc_macro2::TokenStream) -> (r: Result<PairParts, Fault>)
    ensures
        r matches Ok(p) ==> expr_binary_model(*tokens) == Some(
            (ts_trees(p.head), ts_trees(p.first), ts_trees(p.mid), ts_trees(p.second), ts_trees(p.tail)),
        ),
        r matches Err(e) ==> expr_binary_model(*tokens) is None && e matches Fault::Grammar(_),
{
    let n: syn::ExprBinary = match syn::parse2(tokens.clone()) { Ok(n) => n, Err(e) => return Err(Fault::Grammar(e)) };
    let mut h = TokenStream::new();
    for a in &n.attrs { a.to_tokens(&mut h); }
    Ok(PairParts {
        head: h,
        first: n.left.to_token_stream(),
        mid: n.op.to_token_stream(),
        second: n.right.to_token_stream(),
        tail: TokenStream::new(),
    })
}

/// How a snippet splits as this expression form, when it parses as
/// one: the trees of its verbatim head, its rewritable child and its
/// verbatim tail, a function of its tokens.
pub uninterp spec fn expr_block_model(t: proc_macro2::TokenStream) -> Option<(Seq<int>, Seq<int>, Seq<int>)>;

/// Relies on `syn::parse2::<syn::ExprBlock>` and `quote::ToTokens`:
/// splits a block expression around its block.
#[verifier::external_body]
pub(crate) fn parse_expr_block(tokens: &proc_macro2::TokenStream) -> (r: Result<WrapParts, Fault>)
    ensures
        r matches Ok(p) ==> expr_block_model(*tokens) == Some(
            (ts_trees(p.head), ts_trees(p.inner), ts_trees(p.tail)),
        ),
        r matches Err(e) ==> expr_block_model(*tokens) is None && e matches Fault::Grammar(_),
{
    let n: syn::ExprBlock = match syn::parse2(tokens.clone()) { Ok(n) => n, Err(e) => return Err(Fault::Grammar(e)) };
    let mut h = TokenStream::new();
    for a in &n.attrs { a.to_tokens(&mut h); }
    n.label.to_tokens(&mut h);
    Ok(WrapParts { head: h, inner: n.block.to_token_stream(), tail: TokenStream::new() })
}

/// How a snippet splits as this expression form, when it parses as
/// one: the trees of its verbatim head, its rewritable child and its
/// verbatim tail, a function of its tokens.
pub uninterp spec fn expr_box_model(t: proc_macro2::TokenStream) -> Option<(Seq<int>, Seq<int>, Seq<int>)>;

/// Relies on `syn::parse2::<syn::ExprBox>` and `quote::ToTokens`:
/// splits a box expression around its inner expression.
#[verifier::external_body]
pub(crate) fn parse_expr_box(tokens: &proc_macro2::TokenStream) -> (r: Result<WrapParts, Fault>)
    ensures
        r matches Ok(p) ==> expr_box_model(*tokens) == Some(
            (ts_trees(p.head), ts_trees(p.inner), ts_trees(p.tail)),
        ),
        r matches Err(e) ==> expr_box_model(*tokens) is None && e matches Fault::Grammar(_),
{
    let n: syn::ExprBox = match syn::parse2(tokens.clone()) { Ok(n) => n, Err(e) => return Err(Fault::Grammar(e)) };
    let mut h = TokenStream::new();
    for a in &n.attrs { a.to_tokens(&mut h); }
    n.box_token.to_tokens(&mut h);
    Ok(WrapParts { head: h, inner: n.expr.to_token_stream(), tail: TokenStream::new() })
}

/// How a snippet splits as this expression form, when it parses as
/// one: the trees of its verbatim head, of its optional child's lead
/// and body, and of its verbatim tail, a function of its tokens.
pub uninterp spec fn expr_break_model(t: proc_macro2::TokenStream) -> Option<(Seq<int>, Option<(Seq<int>, Seq<int>)>, Seq<int>)>;

/// Relies on `syn::parse2::<syn::ExprBreak>` and `quote::ToTokens`:
/// splits a break expression around its optional value expression.
#[verifier::external_body]
pub(crate) fn parse_expr_break(tokens: &proc_macro2::TokenStream) -> (r: Result<OptChildParts, Fault>)
    ensures
        r matches Ok(p) ==> (expr_break_model(*tokens) matches Some(m) && m.0 == ts_trees(p.head)
            && (p.opt matches Some(d) ==> m.1 == Some((ts_trees(d.lead), ts_trees(d.child))))
            && (p.opt is None ==> m.1 is None)
            && m.2 == ts_trees(p.tail)),
        r matches Err(e) ==> expr_break_model(*tokens) is None && e matches Fault::Grammar(_),
{
    let n: syn::ExprBreak = match syn::parse2(tokens.clone()) { Ok(n) => n, Err(e) => return Err(Fault::Grammar(e)) };
    let mut h = TokenStream::new();
    for a in &n.attrs { a.to_tokens(&mut h); }
    n.break_token.to_tokens(&mut h);
    n.label.to_tokens(&mut h);
    let opt = n.expr.as_ref().map(|e| LeadChild { lead: TokenStream::new(), child: e.to_token_stream() });
    Ok(OptChildParts { head: h, opt, tail: TokenStream::new() })
}

/// How a snippet splits as a call, when it parses as one: the trees of
/// its attributes, its callee and each argument, a function of its
/// tokens.
pub uninterp spec fn expr_call_model(t: proc_macro2::TokenStream) -> Option<(Seq<int>, Seq<int>, Seq<Seq<int>>)>;

/// Relies on `syn::parse2::<syn::ExprCall>` and `quote::ToTokens`:
/// splits a call into its callee and its arguments.
#[verifier::external_body]
pub(crate) fn parse_expr_call(tokens: &proc_macro2::TokenStream) -> (r: Result<CallParts, Fault>)
    ensures
        r matches Ok(p) ==> expr_call_model(*tokens) == Some(
            (ts_trees(p.head), ts_trees(p.func), p.args@.map_values(|e: proc_macro2::TokenStream| ts_trees(e))),
        ),
        r matches Err(e) ==> expr_call_model(*tokens) is None && e matches Fault::Grammar(_),
{
    let n: syn::ExprCall = match syn::parse2(tokens.clone()) { Ok(n) => n, Err(e) => return Err(Fault::Grammar(e)) };
    let mut h = TokenStream::new();
    for a in &n.attrs { a.to_tokens(&mut h); }
    let args = n.args.iter().map(|e| e.to_token_stream()).collect();
    Ok(CallParts { head: h, func: n.func.to_token_stream(), args })
}

/// How a snippet splits as this expression form, when it parses as
/// one: the trees of its verbatim head, its rewritable child and its
/// verbatim tail, a function of its tokens.
pub uninterp spec fn expr_cast_model(t: proc_macro2::TokenStream) -> Option<(Seq<int>, Seq<int>, Seq<int>)>;

/// Relies on `syn::parse2::<syn::ExprCast>` and `quote::ToTokens`:
/// splits a cast around its inner expression.
#[verifier::external_body]
pub(crate) fn parse_expr_cast(tokens: &proc_macro2::TokenStream) -> (r: Result<WrapParts, Fault>)
    ensures
        r matches Ok(p) ==> expr_cast_model(*tokens) == Some(
            (ts_trees(p.head), ts_trees(p.inner), ts_trees(p.tail)),
        ),
        r matches Err(e) ==> expr_cast_model(*tokens) is None && e matches Fault::Grammar(_),
{
    let n: syn::ExprCast = match syn::parse2(tokens.clone()) { Ok(n) => n, Err(e) => return Err(Fault::Grammar(e)) };
    let mut h = TokenStream::new();
    for a in &n.attrs { a.to_tokens(&mut h); }
    let mut tail = n.as_token.to_token_stream();
    n.ty.to_tokens(&mut tail);
    Ok(WrapParts { head: h, inner: n.expr.to_token_stream(), tail })
}

/// How a snippet splits as a closure, when it parses as one: the trees
/// of its lead, of each input pattern with its annotation mark, of the
/// closing bar and return type, and of its body, a function of its
/// tokens.
pub uninterp spec fn expr_closure_model(t: proc_macro2::TokenStream) -> Option<(Seq<int>, Seq<(Seq<int>, bool)>, Seq<int>, Seq<int>)>;

/// Relies on `syn::parse2::<syn::ExprClosure>` and `quote::ToTokens`:
/// splits a closure into its lead, input patterns, return type and body.
#[verifier::external_body]
pub(crate) fn parse_expr_closure(tokens: &proc_macro2::TokenStream) -> (r: Result<ClosureParts, Fault>)
    ensures
        r matches Ok(p) ==> expr_closure_model(*tokens) == Some(
            (
                ts_trees(p.head),
                p.inputs@.map_values(|c: PatChild| (ts_trees(c.tokens), c.typed)),
                ts_trees(p.mid),
                ts_trees(p.body),
            ),
        ),
        r matches Err(e) ==> expr_closure_model(*tokens) is None && e matches Fault::Grammar(_),
{
    let n: syn::ExprClosure = match syn::parse2(tokens.clone()) { Ok(n) => n, Err(e) => return Err(Fault::Grammar(e)) };
    let mut h = TokenStream::new();
    for a in &n.attrs { a.to_tokens(&mut h); }
    n.movability.to_tokens(&mut h);
    n.asyncness.to_tokens(&mut h);
    n.capture.to_tokens(&mut h);
    n.or1_token.to_tokens(&mut h);
    let inputs = n.inputs.iter().map(|p| PatChild { tokens: p.to_token_stream(), typed: pat_is_typed(p) }).collect();
    let mut mid = n.or2_token.to_token_stream();
    n.output.to_tokens(&mut mid);
    Ok(ClosureParts { head: h, inputs, mid, body: n.body.to_token_stream() })
}

/// How a snippet splits as this expression form, when it parses as
/// one: the trees of its verbatim head, its rewritable child and its
/// verbatim tail, a function of its tokens.
pub uninterp spec fn expr_field_model(t: proc_macro2::TokenStream) -> Option<(Seq<int>, Seq<int>, Seq<int>)>;

/// Relies on `syn::parse2::<syn::ExprField>` and `quote::ToTokens`:
/// splits a field access around its base expression.
#[verifier::external_body]
pub(crate) fn parse_expr_field(tokens: &proc_macro2::TokenStream) -> (r: Result<WrapParts, Fault>)
    ensures
        r matches Ok(p) ==> expr_field_model(*tokens) == Some(
            (ts_trees(p.head), ts_trees(p.inner), ts_trees(p.tail)),
        ),
        r matches Err(e) ==> expr_field_model(*tokens) is None && e matches Fault::Grammar(_),
{
    let n: syn::ExprField = match syn::parse2(tokens.clone()) { Ok(n) => n, Err(e) => return Err(Fault::Grammar(e)) };
    let mut h = TokenStream::new();
    for a in &n.attrs { a.to_tokens(&mut h); }
    let mut tail = n.dot_token.to_token_stream();
    n.member.to_tokens(&mut tail);
    Ok(WrapParts { head: h, inner: n.base.to_token_stream(), tail })
}

/// How a snippet splits as a `for` loop, when it parses as one: the
/// trees of its lead, pattern, `in` keyword, iterated expression and
/// body, a function of its tokens.
pub uninterp spec fn expr_for_loop_model(t: proc_macro2::TokenStream) -> Option<(Seq<int>, Seq<int>, Seq<int>, Seq<int>, Seq<int>)>;

/// Relies on `syn::parse2::<syn::ExprForLoop>` and `quote::ToTokens`:
/// splits a `for` loop into its pattern, iterated expression and body.
#[verifier::external_body]
pub(crate) fn parse_expr_for_loop(tokens: &proc_macro2::TokenStream) -> (r: Result<ForParts, Fault>)
    ensures
        r matches Ok(p) ==> expr_for_loop_model(*tokens) == Some(
            (ts_trees(p.head), ts_trees(p.pat), ts_trees(p.mid), ts_trees(p.expr), ts_trees(p.body)),
        ),
        r matches Err(e) ==> expr_for_loop_model(*tokens) is None && e matches Fault::Grammar(_),
{
    let n: syn::ExprForLoop = match syn::parse2(tokens.clone()) { Ok(n) => n, Err(e) => return Err(Fault::Grammar(e)) };
    let mut h = TokenStream::new();
    for a in &n.attrs { a.to_tokens(&mut h); }
    n.label.to_tokens(&mut h);
    n.for_token.to_tokens(&mut h);
    Ok(ForParts {
        head: h,
        pat: n.pat.to_token_stream(),
        mid: n.in_token.to_token_stream(),
        expr: n.expr.to_token_stream(),
        body: n.body.to_token_stream(),
    })
}

/// How a snippet splits as an invisible-group expression: `None`
/// outside means the snippet is no expression, `None` inside another
/// variant.
pub uninterp spec fn expr_group_model(t: proc_macro2::TokenStream) -> Option<Option<(Seq<int>, Seq<int>, Seq<int>)>>;

/// Relies on `syn::parse2::<syn::Expr>`: parses the snippet as an
/// expression and splits it as an invisible group.
#[verifier::external_body]
pub(crate) fn parse_expr_group(tokens: &proc_macro2::TokenStream) -> (r: Result<Option<WrapParts>, Fault>)
    ensures
        r matches Ok(Some(p)) ==> expr_group_model(*tokens) == Some(Some(
            (ts_trees(p.head), ts_trees(p.inner), ts_trees(p.tail)),
        )),
        r matches Ok(None) ==> (expr_group_model(*tokens) matches Some(mm) && mm is None),
        r matches Err(e) ==> expr_group_model(*tokens) is None && e matches Fault::Grammar(_),
{
    let p: syn::Expr = match syn::parse2(tokens.clone()) { Ok(p) => p, Err(e) => return Err(Fault::Grammar(e)) };
    Ok(expr_group_parts(&p))
}

/// Relies on `quote::ToTokens`: splits an invisible-group expression
/// around its inner expression, or answers `None` for another variant.
#[verifier::external_body]
pub(crate) fn expr_group_parts(expr: &syn::Expr) -> Option<WrapParts> {
    let g = match expr { syn::Expr::Group(g) => g, _ => return None };
    let mut h = TokenStream::new();
    for a in &g.attrs { a.to_tokens(&mut h); }
    Some(WrapParts { head: h, inner: g.expr.to_token_stream(), tail: TokenStream::new() })
}

/// How a snippet splits as an `if` expression, when it parses as one:
/// the trees of its lead, condition, then-block and optional else
/// branch, a function of its tokens.
pub uninterp spec fn expr_if_model(t: proc_macro2::TokenStream) -> Option<(Seq<int>, Seq<int>, Seq<int>, Option<(Seq<int>, Seq<int>)>)>;

/// Relies on `syn::parse2::<syn::ExprIf>` and `quote::ToTokens`: splits
/// an `if` expression into its condition, then-block and else branch.
#[verifier::external_body]
pub(crate) fn parse_expr_if(tokens: &proc_macro2::TokenStream) -> (r: Result<IfParts, Fault>)
    ensures
        r matches Ok(p) ==> (expr_if_model(*tokens) matches Some(m) && m.0 == ts_trees(p.head)
            && m.1 == ts_trees(p.cond) && m.2 == ts_trees(p.then_block)
            && (p.els matches Some(d) ==> m.3 == Some((ts_trees(d.lead), ts_trees(d.child))))
            && (p.els is None ==> m.3 is None)),
        r matches Err(e) ==> expr_if_model(*tokens) is None && e matches Fault::Grammar(_),
{
    let n: syn::ExprIf = match syn::parse2(tokens.clone()) { Ok(n) => n, Err(e) => return Err(Fault::Grammar(e)) };
    let mut h = TokenStream::new();
    for a in &n.attrs { a.to_tokens(&mut h); }
    n.if_token.to_tokens(&mut h);
    let els = n.else_branch.as_ref().map(
        |(el, e)| LeadChild { lead: el.to_token_stream(), child: e.to_token_stream() },
    );
    Ok(IfParts { head: h, cond: n.cond.to_token_stream(), then_block: n.then_branch.to_token_stream(), els })
}

/// How a snippet splits as this expression form, when it parses as
/// one: the trees of its verbatim head, two rewritable children, the
/// verbatim middle and tail, a function of its tokens.
pub uninterp spec fn expr_index_model(t: proc_macro2::TokenStream) -> Option<(Seq<int>, Seq<int>, Seq<int>, Seq<int>, Seq<int>)>;

/// Relies on `syn::parse2::<syn::ExprIndex>` and `quote::ToTokens`:
/// splits an index expression around its base and its index.
#[verifier::external_body]
pub(crate) fn parse_expr_index(tokens: &proc_macro2::TokenStream) -> (r: Result<PairParts, Fault>)
    ensures
        r matches Ok(p) ==> expr_index_model(*tokens) == Some(
            (ts_trees(p.head), ts_trees(p.first), ts_trees(p.mid), ts_trees(p.second), ts_trees(p.tail)),
        ),
        r matches Err(e) ==> expr_index_model(*tokens) is None && e matches Fault::Grammar(_),
{
    let n: syn::ExprIndex = match syn::parse2(tokens.clone()) { Ok(n) => n, Err(e) => return Err(Fault::Grammar(e)) };
    let mut h = TokenStream::new();
    for a in &n.attrs { a.to_tokens(&mut h); }
    Ok(PairParts {
        head: h,
        first: n.expr.to_token_stream(),
        mid: TokenStream::new(),
        second: n.index.to_token_stream(),
        tail: TokenStream::new(),
    })
}

/// How a snippet splits as this expression form, when it parses as
/// one: the trees of its verbatim head, two rewritable children, the
/// verbatim middle and tail, a function of its tokens.
pub uninterp spec fn expr_let_model(t: proc_macro2::TokenStream) -> Option<(Seq<int>, Seq<int>, Seq<int>, Seq<int>, Seq<int>)>;

/// Relies on `syn::parse2::<syn::ExprLet>` and `quote::ToTokens`:
/// splits a `let` guard around its pattern and its expression.
#[verifier::external_body]
pub(crate) fn parse_expr_let(tokens: &proc_macro2::TokenStream) -> (r: Result<PairParts, Fault>)
    ensures
        r matches Ok(p) ==> expr_let_model(*tokens) == Some(
            (ts_trees(p.head), ts_trees(p.first), ts_trees(p.mid), ts_trees(p.second), ts_trees(p.tail)),
        ),
        r matches Err(e) ==> expr_let_model(*tokens) is None && e matches Fault::Grammar(_),
{
    let n: syn::ExprLet = match syn::parse2(tokens.clone()) { Ok(n) => n, Err(e) => return Err(Fault::Grammar(e)) };
    let mut h = TokenStream::new();
    for a in &n.attrs { a.to_tokens(&mut h); }
    n.let_token.to_tokens(&mut h);
    Ok(PairParts {
        head: h,
        first: n.pat.to_token_stream(),
        mid: n.eq_token.to_token_stream(),
        second: n.expr.to_token_stream(),
        tail: TokenStream::new(),
    })
}

/// How a snippet splits as this expression form, when it parses as
/// one: the trees of its verbatim head, its rewritable child and its
/// verbatim tail, a function of its tokens.
pub uninterp spec fn expr_lit_model(t: proc_macro2::TokenStream) -> Option<(Seq<int>, Seq<int>, Seq<int>)>;

/// Relies on `syn::parse2::<syn::ExprLit>` and `quote::ToTokens`:
/// splits a literal expression into its attributes and its literal.
#[verifier::external_body]
pub(crate) fn parse_expr_lit(tokens: &proc_macro2::TokenStream) -> (r: Result<WrapParts, Fault>)
    ensures
        r matches Ok(p) ==> expr_lit_model(*tokens) == Some(
            (ts_trees(p.head), ts_trees(p.inner), ts_trees(p.tail)),
        ),
        r matches Err(e) ==> expr_lit_model(*tokens) is None && e matches Fault::Grammar(_),
{
    let n: syn::ExprLit = match syn::parse2(tokens.clone()) { Ok(n) => n, Err(e) => return Err(Fault::Grammar(e)) };
    let mut h = TokenStream::new();
    for a in &n.attrs { a.to_tokens(&mut h); }
    Ok(WrapParts { head: h, inner: n.lit.to_token_stream(), tail: TokenStream::new() })
}

/// How a snippet splits as this expression form, when it parses as
/// one: the trees of its verbatim head, its rewritable child and its
/// verbatim tail, a function of its tokens.
pub uninterp spec fn expr_loop_model(t: proc_macro2::TokenStream) -> Option<(Seq<int>, Seq<int>, Seq<int>)>;

/// Relies on `syn::parse2::<syn::ExprLoop>` and `quote::ToTokens`:
/// splits a `loop` expression around its body block.
#[verifier::external_body]
pub(crate) fn parse_expr_loop(tokens: &proc_macro2::TokenStream) -> (r: Result<WrapParts, Fault>)
    ensures
        r matches Ok(p) ==> expr_loop_model(*tokens) == Some(
            (ts_trees(p.head), ts_trees(p.inner), ts_trees(p.tail)),
        ),
        r matches Err(e) ==> expr_loop_model(*tokens) is None && e matches Fault::Grammar(_),
{
    let n: syn::ExprLoop = match syn::parse2(tokens.clone()) { Ok(n) => n, Err(e) => return Err(Fault::Grammar(e)) };
    let mut h = TokenStream::new();
    for a in &n.attrs { a.to_tokens(&mut h); }
    n.label.to_tokens(&mut h);
    n.loop_token.to_tokens(&mut h);
    Ok(WrapParts { head: h, inner: n.body.to_token_stream(), tail: TokenStream::new() })
}

/// How a snippet splits as a `match` expression, when it parses as
/// one: the trees of its lead, scrutinee and each arm, a function of
/// its tokens.
pub uninterp spec fn expr_match_model(t: proc_macro2::TokenStream) -> Option<(Seq<int>, Seq<int>, Seq<Seq<int>>)>;

/// Relies on `syn::parse2::<syn::ExprMatch>` and `quote::ToTokens`:
/// splits a `match` expression into its scrutinee and its arms.
#[verifier::external_body]
pub(crate) fn parse_expr_match(tokens: &proc_macro2::TokenStream) -> (r: Result<MatchParts, Fault>)
    ensures
        r matches Ok(p) ==> expr_match_model(*tokens) == Some(
            (ts_trees(p.head), ts_trees(p.expr), p.arms@.map_values(|e: proc_macro2::TokenStream| ts_trees(e))),
        ),
        r matches Err(e) ==> expr_match_model(*tokens) is None && e matches Fault::Grammar(_),
{
    let n: syn::ExprMatch = match syn::parse2(tokens.clone()) { Ok(n) => n, Err(e) => return Err(Fault::Grammar(e)) };
    let mut h = TokenStream::new();
    for a in &n.attrs { a.to_tokens(&mut h); }
    n.match_token.to_tokens(&mut h);
    let arms = n.arms.iter().map(|a| a.to_token_stream()).collect();
    Ok(MatchParts { head: h, expr: n.expr.to_token_stream(), arms })
}

/// How a snippet splits as a method call, when it parses as one: the
/// trees of its attributes, receiver, dot-name-turbofish run and each
/// argument, a function of its tokens.
pub uninterp spec fn expr_method_call_model(t: proc_macro2::TokenStream) -> Option<(Seq<int>, Seq<int>, Seq<int>, Seq<Seq<int>>)>;

/// Relies on `syn::parse2::<syn::ExprMethodCall>` and `quote::ToTokens`:
/// splits a method call into its receiver, its name and its arguments.
#[verifier::external_body]
pub(crate) fn parse_expr_method_call(tokens: &proc_macro2::TokenStream) -> (r: Result<MethodCallParts, Fault>)
    ensures
        r matches Ok(p) ==> expr_method_call_model(*tokens) == Some(
            (
                ts_trees(p.head),
                ts_trees(p.receiver),
                ts_trees(p.mid),
                p.args@.map_values(|e: proc_macro2::TokenStream| ts_trees(e)),
            ),
        ),
        r matches Err(e) ==> expr_method_call_model(*tokens) is None && e matches Fault::Grammar(_),
{
    let n: syn::ExprMethodCall = match syn::parse2(tokens.clone()) { Ok(n) => n, Err(e) => return Err(Fault::Grammar(e)) };
    let mut h = TokenStream::new();
    for a in &n.attrs { a.to_tokens(&mut h); }
    let mut mid = n.dot_token.to_token_stream();
    n.method.to_tokens(&mut mid);
    n.turbofish.to_tokens(&mut mid);
    let args = n.args.iter().map(|e| e.to_token_stream()).collect();
    Ok(MethodCallParts { head: h, receiver: n.receiver.to_token_stream(), mid, args })
}

/// How a snippet splits as this expression form, when it parses as
/// one: the trees of its verbatim head, its rewritable child and its
/// verbatim tail, a function of its tokens.
pub uninterp spec fn expr_paren_model(t: proc_macro2::TokenStream) -> Option<(Seq<int>, Seq<int>, Seq<int>)>;

/// Relies on `syn::parse2::<syn::ExprParen>` and `quote::ToTokens`:
/// splits a parenthesized expression around its inner expression.
#[verifier::external_body]
pub(crate) fn parse_expr_paren(tokens: &proc_macro2::TokenStream) -> (r: Result<WrapParts, Fault>)
    ensures
        r matches Ok(p) ==> expr_paren_model(*tokens) == Some(
            (ts_trees(p.head), ts_trees(p.inner), ts_trees(p.tail)),
        ),
        r matches Err(e) ==> expr_paren_model(*tokens) is None && e matches Fault::Grammar(_),
{
    let n: syn::ExprParen = match syn::parse2(tokens.clone()) { Ok(n) => n, Err(e) => return Err(Fault::Grammar(e)) };
    let mut h = TokenStream::new();
    for a in &n.attrs { a.to_tokens(&mut h); }
    Ok(WrapParts { head: h, inner: n.expr.to_token_stream(), tail: TokenStream::new() })
}

/// How a snippet splits as a range expression, when it parses as one:
/// the trees of its attributes, optional bounds and operator, a
/// function of its tokens.
pub uninterp spec fn expr_range_model(t: proc_macro2::TokenStream) -> Option<(Seq<int>, Option<Seq<int>>, Seq<int>, Option<Seq<int>>)>;

/// Relies on `syn::parse2::<syn::ExprRange>` and `quote::ToTokens`:
/// splits a range expression around its optional bounds.
#[verifier::external_body]
pub(crate) fn parse_expr_range(tokens: &proc_macro2::TokenStream) -> (r: Result<RangeParts, Fault>)
    ensures
        r matches Ok(p) ==> (expr_range_model(*tokens) matches Some(m) && m.0 == ts_trees(p.head)
            && (p.from matches Some(f) ==> m.1 == Some(ts_trees(f)))
            && (p.from is None ==> m.1 is None)
            && m.2 == ts_trees(p.mid)
            && (p.to matches Some(t2) ==> m.3 == Some(ts_trees(t2)))
            && (p.to is None ==> m.3 is None)),
        r matches Err(e) ==> expr_range_model(*tokens) is None && e matches Fault::Grammar(_),
{
    let n: syn::ExprRange = match syn::parse2(tokens.clone()) { Ok(n) => n, Err(e) => return Err(Fault::Grammar(e)) };
    let mut h = TokenStream::new();
    for a in &n.attrs { a.to_tokens(&mut h); }
    Ok(RangeParts {
        head: h,
        from: n.from.as_ref().map(|e| e.to_token_stream()),
        mid: n.limits.to_token_stream(),
        to: n.to.as_ref().map(|e| e.to_token_stream()),
    })
}

/// How a snippet splits as this expression form, when it parses as
/// one: the trees of its verbatim head, its rewritable child and its
/// verbatim tail, a function of its tokens.
pub uninterp spec fn expr_reference_model(t: proc_macro2::TokenStream) -> Option<(Seq<int>, Seq<int>, Seq<int>)>;

/// Relies on `syn::parse2::<syn::ExprReference>` and `quote::ToTokens`:
/// splits a reference expression around its inner expression.
#[verifier::external_body]
pub(crate) fn parse_expr_reference(tokens: &proc_macro2::TokenStream) -> (r: Result<WrapParts, Fault>)
    ensures
        r matches Ok(p) ==> expr_reference_model(*tokens) == Some(
            (ts_trees(p.head), ts_trees(p.inner), ts_trees(p.tail)),
        ),
        r matches Err(e) ==> expr_reference_model(*tokens) is None && e matches Fault::Grammar(_),
{
    let n: syn::ExprReference = match syn::parse2(tokens.clone()) { Ok(n) => n, Err(e) => return Err(Fault::Grammar(e)) };
    let mut h = TokenStream::new();
    for a in &n.attrs { a.to_tokens(&mut h); }
    n.and_token.to_tokens(&mut h);
    n.mutability.to_tokens(&mut h);
    Ok(WrapParts { head: h, inner: n.expr.to_token_stream(), tail: TokenStream::new() })
}

/// How a snippet splits as this expression form, when it parses as
/// one: the trees of its verbatim head, two rewritable children, the
/// verbatim middle and tail, a function of its tokens.
pub uninterp spec fn expr_repeat_model(t: proc_macro2::TokenStream) -> Option<(Seq<int>, Seq<int>, Seq<int>, Seq<int>, Seq<int>)>;

/// Relies on `syn::parse2::<syn::ExprRepeat>` and `quote::ToTokens`:
/// splits a repeat expression around its element and its length.
#[verifier::external_body]
pub(crate) fn parse_expr_repeat(tokens: &proc_macro2::TokenStream) -> (r: Result<PairParts, Fault>)
    ensures
        r matches Ok(p) ==> expr_repeat_model(*tokens) == Some(
            (ts_trees(p.head), ts_trees(p.first), ts_trees(p.mid), ts_trees(p.second), ts_trees(p.tail)),
        ),
        r matches Err(e) ==> expr_repeat_model(*tokens) is None && e matches Fault::Grammar(_),
{
    let n: syn::ExprRepeat = match syn::parse2(tokens.clone()) { Ok(n) => n, Err(e) => return Err(Fault::Grammar(e)) };
    let mut h = TokenStream::new();
    for a in &n.attrs { a.to_tokens(&mut h); }
    Ok(PairParts {
        head: h,
        first: n.expr.to_token_stream(),
        mid: n.semi_token.to_token_stream(),
        second: n.len.to_token_stream(),
        tail: TokenStream::new(),
    })
}

/// How a snippet splits as this expression form, when it parses as
/// one: the trees of its verbatim head, of its optional child's lead
/// and body, and of its verbatim tail, a function of its tokens.
pub uninterp spec fn expr_return_model(t: proc_macro2::TokenStream) -> Option<(Seq<int>, Option<(Seq<int>, Seq<int>)>, Seq<int>)>;

/// Relies on `syn::parse2::<syn::ExprReturn>` and `quote::ToTokens`:
/// splits a return expression around its optional value expression.
#[verifier::external_body]
pub(crate) fn parse_expr_return(tokens: &proc_macro2::TokenStream) -> (r: Result<OptChildParts, Fault>)
    ensures
        r matches Ok(p) ==> (expr_return_model(*tokens) matches Some(m) && m.0 == ts_trees(p.head)
            && (p.opt matches Some(d) ==> m.1 == Some((ts_trees(d.lead), ts_trees(d.child))))
            && (p.opt is None ==> m.1 is None)
            && m.2 == ts_trees(p.tail)),
        r matches Err(e) ==> expr_return_model(*tokens) is None && e matches Fault::Grammar(_),
{
    let n: syn::ExprReturn = match syn::parse2(tokens.clone()) { Ok(n) => n, Err(e) => return Err(Fault::Grammar(e)) };
    let mut h = TokenStream::new();
    for a in &n.attrs { a.to_tokens(&mut h); }
    n.return_token.to_tokens(&mut h);
    let opt = n.expr.as_ref().map(|e| LeadChild { lead: TokenStream::new(), child: e.to_token_stream() });
    Ok(OptChildParts { head: h, opt, tail: TokenStream::new() })
}

/// How a snippet splits as a struct expression, when it parses as one:
/// the trees of its path, of each field value, and of the optional rest
/// marker and expression, a function of its tokens.
pub uninterp spec fn expr_struct_model(t: proc_macro2::TokenStream) -> Option<(Seq<int>, Seq<Seq<int>>, Option<Seq<int>>, Option<Seq<int>>)>;

/// Relies on `syn::parse2::<syn::ExprStruct>` and `quote::ToTokens`:
/// splits a struct expression into its path, its field values and its
/// optional rest.
#[verifier::external_body]
pub(crate) fn parse_expr_struct(tokens: &proc_macro2::TokenStream) -> (r: Result<StructExprParts, Fault>)
    ensures
        r matches Ok(p) ==> (expr_struct_model(*tokens) matches Some(m) && m.0 == ts_trees(p.head)
            && m.1 == p.fields@.map_values(|e: proc_macro2::TokenStream| ts_trees(e))
            && (p.dot2 matches Some(d) ==> m.2 == Some(ts_trees(d)))
            && (p.dot2 is None ==> m.2 is None)
            && (p.rest matches Some(x) ==> m.3 == Some(ts_trees(x)))
            && (p.rest is None ==> m.3 is None)),
        r matches Err(e) ==> expr_struct_model(*tokens) is None && e matches Fault::Grammar(_),
{
    let n: syn::ExprStruct = match syn::parse2(tokens.clone()) { Ok(n) => n, Err(e) => return Err(Fault::Grammar(e)) };
    let mut h = TokenStream::new();
    for a in &n.attrs { a.to_tokens(&mut h); }
    n.path.to_tokens(&mut h);
    let fields = n.fields.iter().map(|f| f.to_token_stream()).collect();
    let dot2 = n.dot2_token.as_ref().map(|d| d.to_token_stream());
    let rest = n.rest.as_ref().map(|e| e.to_token_stream());
    Ok(StructExprParts { head: h, fields, dot2, rest })
}

/// How a snippet splits as this expression form, when it parses as
/// one: the trees of its verbatim head, its rewritable child and its
/// verbatim tail, a function of its tokens.
pub uninterp spec fn expr_try_model(t: proc_macro2::TokenStream) -> Option<(Seq<int>, Seq<int>, Seq<int>)>;

/// Relies on `syn::parse2::<syn::ExprTry>` and `quote::ToTokens`:
/// splits a try expression around its inner expression.
#[verifier::external_body]
pub(crate) fn parse_expr_try(tokens: &proc_macro2::TokenStream) -> (r: Result<WrapParts, Fault>)
    ensures
        r matches Ok(p) ==> expr_try_model(*tokens) == Some(
            (ts_trees(p.head), ts_trees(p.inner), ts_trees(p.tail)),
        ),
        r matches Err(e) ==> expr_try_model(*tokens) is None && e matches Fault::Grammar(_),
{
    let n: syn::ExprTry = match syn::parse2(tokens.clone()) { Ok(n) => n, Err(e) => return Err(Fault::Grammar(e)) };
    let mut h = TokenStream::new();
    for a in &n.attrs { a.to_tokens(&mut h); }
    Ok(WrapParts { head: h, inner: n.expr.to_token_stream(), tail: n.question_token.to_token_stream() })
}

/// How a snippet splits as this expression form, when it parses as
/// one: the trees of its verbatim head, its rewritable child and its
/// verbatim tail, a function of its tokens.
pub uninterp spec fn expr_try_block_model(t: proc_macro2::TokenStream) -> Option<(Seq<int>, Seq<int>, Seq<int>)>;

/// Relies on `syn::parse2::<syn::ExprTryBlock>` and `quote::ToTokens`:
/// splits a try block around its body block.
#[verifier::external_body]
pub(crate) fn parse_expr_try_block(tokens: &proc_macro2::TokenStream) -> (r: Result<WrapParts, Fault>)
    ensures
        r matches Ok(p) ==> expr_try_block_model(*tokens) == Some(
            (ts_trees(p.head), ts_trees(p.inner), ts_trees(p.tail)),
        ),
        r matches Err(e) ==> expr_try_block_model(*tokens) is None && e matches Fault::Grammar(_),
{
    let n: syn::ExprTryBlock = match syn::parse2(tokens.clone()) { Ok(n) => n, Err(e) => return Err(Fault::Grammar(e)) };
    let mut h = TokenStream::new();
    for a in &n.attrs { a.to_tokens(&mut h); }
    n.try_token.to_tokens(&mut h);
    Ok(WrapParts { head: h, inner: n.block.to_token_stream(), tail: TokenStream::new() })
}

/// How a snippet splits as this expression form, when it parses as
/// one: the trees of its verbatim head and of each element, a function
/// of its tokens.
pub uninterp spec fn expr_tuple_model(t: proc_macro2::TokenStream) -> Option<(Seq<int>, Seq<Seq<int>>)>;

/// Relies on `syn::parse2::<syn::ExprTuple>` and `quote::ToTokens`:
/// splits a tuple expression into its attributes and its elements.
#[verifier::external_body]
pub(crate) fn parse_expr_tuple(tokens: &proc_macro2::TokenStream) -> (r: Result<ListParts, Fault>)
    ensures
        r matches Ok(p) ==> expr_tuple_model(*tokens) == Some(
            (ts_trees(p.head), p.elems@.map_values(|e: proc_macro2::TokenStream| ts_trees(e))),
        ),
        r matches Err(e) ==> expr_tuple_model(*tokens) is None && e matches Fault::Grammar(_),
{
    let n: syn::ExprTuple = match syn::parse2(tokens.clone()) { Ok(n) => n, Err(e) => return Err(Fault::Grammar(e)) };
    let mut h = TokenStream::new();
    for a in &n.attrs { a.to_tokens(&mut h); }
    let elems = n.elems.iter().map(|e| e.to_token_stream()).collect();
    Ok(ListParts { head: h, elems, tail: TokenStream::new() })
}

/// How a snippet splits as this expression form, when it parses as
/// one: the trees of its verbatim head, its rewritable child and its
/// verbatim tail, a function of its tokens.
pub uninterp spec fn expr_type_model(t: proc_macro2::TokenStream) -> Option<(Seq<int>, Seq<int>, Seq<int>)>;

/// Relies on `syn::parse2::<syn::ExprType>` and `quote::ToTokens`:
/// splits a type-ascription expression around its inner expression.
#[verifier::external_body]
pub(crate) fn parse_expr_type(tokens: &proc_macro2::TokenStream) -> (r: Result<WrapParts, Fault>)
    ensures
        r matches Ok(p) ==> expr_type_model(*tokens) == Some(
            (ts_trees(p.head), ts_trees(p.inner), ts_trees(p.tail)),
        ),
        r matches Err(e) ==> expr_type_model(*tokens) is None && e matches Fault::Grammar(_),
{
    let n: syn::ExprType = match syn::parse2(tokens.clone()) { Ok(n) => n, Err(e) => return Err(Fault::Grammar(e)) };
    let mut h = TokenStream::new();
    for a in &n.attrs { a.to_tokens(&mut h); }
    let mut tail = n.colon_token.to_token_stream();
    n.ty.to_tokens(&mut tail);
    Ok(WrapParts { head: h, inner: n.expr.to_token_stream(), tail })
}

/// How a snippet splits as this expression form, when it parses as
/// one: the trees of its verbatim head, its rewritable child and its
/// verbatim tail, a function of its tokens.
pub uninterp spec fn expr_unary_model(t: proc_macro2::TokenStream) -> Option<(Seq<int>, Seq<int>, Seq<int>)>;

/// Relies on `syn::parse2::<syn::ExprUnary>` and `quote::ToTokens`:
/// splits a unary expression around its operand.
#[verifier::external_body]
pub(crate) fn parse_expr_unary(tokens: &proc_macro2::TokenStream) -> (r: Result<WrapParts, Fault>)
    ensures
        r matches Ok(p) ==> expr_unary_model(*tokens) == Some(
            (ts_trees(p.head), ts_trees(p.inner), ts_trees(p.tail)),
        ),
        r matches Err(e) ==> expr_unary_model(*tokens) is None && e matches Fault::Grammar(_),
{
    let n: syn::ExprUnary = match syn::parse2(tokens.clone()) { Ok(n) => n, Err(e) => return Err(Fault::Grammar(e)) };
    let mut h = TokenStream::new();
    for a in &n.attrs { a.to_tokens(&mut h); }
    n.op.to_tokens(&mut h);
    Ok(WrapParts { head: h, inner: n.expr.to_token_stream(), tail: TokenStream::new() })
}

/// How a snippet splits as this expression form, when it parses as
/// one: the trees of its verbatim head, its rewritable child and its
/// verbatim tail, a function of its tokens.
pub uninterp spec fn expr_unsafe_model(t: proc_macro2::TokenStream) -> Option<(Seq<int>, Seq<int>, Seq<int>)>;

/// Relies on `syn::parse2::<syn::ExprUnsafe>` and `quote::ToTokens`:
/// splits an unsafe block around its body block.
#[verifier::external_body]
pub(crate) fn parse_expr_unsafe(tokens: &proc_macro2::TokenStream) -> (r: Result<WrapParts, Fault>)
    ensures
        r matches Ok(p) ==> expr_unsafe_model(*tokens) == Some(
            (ts_trees(p.head), ts_trees(p.inner), ts_trees(p.tail)),
        ),
        r matches Err(e) ==> expr_unsafe_model(*tokens) is None && e matches Fault::Grammar(_),
{
    let n: syn::ExprUnsafe = match syn::parse2(tokens.clone()) { Ok(n) => n, Err(e) => return Err(Fault::Grammar(e)) };
    let mut h = TokenStream::new();
    for a in &n.attrs { a.to_tokens(&mut h); }
    n.unsafe_token.to_tokens(&mut h);
    Ok(WrapParts { head: h, inner: n.block.to_token_stream(), tail: TokenStream::new() })
}

/// How a snippet splits as this expression form, when it parses as
/// one: the trees of its verbatim head, two rewritable children, the
/// verbatim middle and tail, a function of its tokens.
pub uninterp spec fn expr_while_model(t: proc_macro2::TokenStream) -> Option<(Seq<int>, Seq<int>, Seq<int>, Seq<int>, Seq<int>)>;

/// Relies on `syn::parse2::<syn::ExprWhile>` and `quote::ToTokens`:
/// splits a `while` loop around its condition and its body.
#[verifier::external_body]
pub(crate) fn parse_expr_while(tokens: &proc_macro2::TokenStream) -> (r: Result<PairParts, Fault>)
    ensures
        r matches Ok(p) ==> expr_while_model(*tokens) == Some(
            (ts_trees(p.head), ts_trees(p.first), ts_trees(p.mid), ts_trees(p.second), ts_trees(p.tail)),
        ),
        r matches Err(e) ==> expr_while_model(*tokens) is None && e matches Fault::Grammar(_),
{
    let n: syn::ExprWhile = match syn::parse2(tokens.clone()) { Ok(n) => n, Err(e) => return Err(Fault::Grammar(e)) };
    let mut h = TokenStream::new();
    for a in &n.attrs { a.to_tokens(&mut h); }
    n.label.to_tokens(&mut h);
    n.while_token.to_tokens(&mut h);
    Ok(PairParts {
        head: h,
        first: n.cond.to_token_stream(),
        mid: TokenStream::new(),
        second: n.body.to_token_stream(),
        tail: TokenStream::new(),
    })
}

/// How a snippet splits as this expression form, when it parses as
/// one: the trees of its verbatim head, of its optional child's lead
/// and body, and of its verbatim tail, a function of its tokens.
pub uninterp spec fn expr_yield_model(t: proc_macro2::TokenStream) -> Option<(Seq<int>, Option<(Seq<int>, Seq<int>)>, Seq<int>)>;

/// Relies on `syn::parse2::<syn::ExprYield>` and `quote::ToTokens`:
/// splits a yield expression around its optional value expression.
#[verifier::external_body]
pub(crate) fn parse_expr_yield(tokens: &proc_macro2::TokenStream) -> (r: Result<OptChildParts, Fault>)
    ensures
        r matches Ok(p) ==> (expr_yield_model(*tokens) matches Some(m) && m.0 == ts_trees(p.head)
            && (p.opt matches Some(d) ==> m.1 == Some((ts_trees(d.lead), ts_trees(d.child))))
            && (p.opt is None ==> m.1 is None)
            && m.2 == ts_trees(p.tail)),
        r matches Err(e) ==> expr_yield_model(*tokens) is None && e matches Fault::Grammar(_),
{
    let n: syn::ExprYield = match syn::parse2(tokens.clone()) { Ok(n) => n, Err(e) => return Err(Fault::Grammar(e)) };
    let mut h = TokenStream::new();
    for a in &n.attrs { a.to_tokens(&mut h); }
    n.yield_token.to_tokens(&mut h);
    let opt = n.expr.as_ref().map(|e| LeadChild { lead: TokenStream::new(), child: e.to_token_stream() });
    Ok(OptChildParts { head: h, opt, tail: TokenStream::new() })
}

/// How a snippet splits as a match arm, when it parses as one: the
/// trees of its attributes, pattern, optional guard, arrow, body and
/// trailing comma, a function of its tokens.
pub uninterp spec fn arm_model(t: proc_macro2::TokenStream) -> Option<(Seq<int>, Seq<int>, Option<(Seq<int>, Seq<int>)>, Seq<int>, Seq<int>, Seq<int>)>;

/// Relies on `syn::parse2::<syn::Arm>` and `quote::ToTokens`: splits a
/// match arm into its pattern, optional guard, body and trailing comma.
#[verifier::external_body]
pub(crate) fn parse_arm(tokens: &proc_macro2::TokenStream) -> (r: Result<ArmParts, Fault>)
    ensures
        r matches Ok(p) ==> (arm_model(*tokens) matches Some(m) && m.0 == ts_trees(p.head)
            && m.1 == ts_trees(p.pat)
            && (p.guard matches Some(d) ==> m.2 == Some((ts_trees(d.lead), ts_trees(d.child))))
            && (p.guard is None ==> m.2 is None)
            && m.3 == ts_trees(p.mid) && m.4 == ts_trees(p.body) && m.5 == ts_trees(p.tail)),
        r matches Err(e) ==> arm_model(*tokens) is None && e matches Fault::Grammar(_),
{
    let n: syn::Arm = match syn::parse2(tokens.clone()) { Ok(n) => n, Err(e) => return Err(Fault::Grammar(e)) };
    let mut h = TokenStream::new();
    for a in &n.attrs { a.to_tokens(&mut h); }
    let guard = n.guard.as_ref().map(
        |(ift, e)| LeadChild { lead: ift.to_token_stream(), child: e.to_token_stream() },
    );
    let mut tail = TokenStream::new();
    n.comma.to_tokens(&mut tail);
    let mid = n.fat_arrow_token.to_token_stream();
    Ok(ArmParts { head: h, pat: n.pat.to_token_stream(), guard, mid, body: n.body.to_token_stream(), tail })
}

/// How a snippet splits as a struct-literal field, when it parses as
/// one: the trees of its verbatim head (member and colon absent for a
/// shorthand field), its value expression and its verbatim tail, a
/// function of its tokens.
pub uninterp spec fn field_value_model(t: proc_macro2::TokenStream) -> Option<(Seq<int>, Seq<int>, Seq<int>)>;

/// Relies on `syn::parse2::<syn::FieldValue>` and `quote::ToTokens`:
/// splits a struct-literal field around its value expression. In a
/// shorthand field the member and the expression are the same token, so
/// the member goes into the head only when its colon is present; the
/// expression alone then reproduces a shorthand field.
#[verifier::external_body]
pub(crate) fn parse_field_value(tokens: &proc_macro2::TokenStream) -> (r: Result<WrapParts, Fault>)
    ensures
        r matches Ok(p) ==> field_value_model(*tokens) == Some(
            (ts_trees(p.head), ts_trees(p.inner), ts_trees(p.tail)),
        ),
        r matches Err(e) ==> field_value_model(*tokens) is None && e matches Fault::Grammar(_),
{
    let n: syn::FieldValue = match syn::parse2(tokens.clone()) { Ok(n) => n, Err(e) => return Err(Fault::Grammar(e)) };
    let mut h = TokenStream::new();
    for a in &n.attrs { a.to_tokens(&mut h); }
    if let Some(c) = &n.colon_token { n.member.to_tokens(&mut h); c.to_tokens(&mut h); }
    Ok(WrapParts { head: h, inner: n.expr.to_token_stream(), tail: TokenStream::new() })
}

/// What the snippet reserializes to when it parses as this expression
/// kind: a function of its tokens.
pub uninterp spec fn expr_continue_reparse(t: proc_macro2::TokenStream) -> Option<Seq<int>>;

/// Relies on `syn::parse2::<syn::ExprContinue>`: checks the snippet is a
/// continue expression and reserializes it.
#[verifier::external_body]
pub(crate) fn reparse_expr_continue(
    tokens: &proc_macro2::TokenStream,
) -> (r: Result<proc_macro2::TokenStream, Fault>)
    ensures
        r matches Ok(out) ==> expr_continue_reparse(*tokens) == Some(ts_trees(out)),
        r matches Err(e) ==> expr_continue_reparse(*tokens) is None && e matches Fault::Grammar(_),
{
    match syn::parse2::<syn::ExprContinue>(tokens.clone()) {
        Ok(n) => Ok(n.to_token_stream()),
        Err(e) => Err(Fault::Grammar(e)),
    }
}

/// What the snippet reserializes to when it parses as this expression
/// kind: a function of its tokens.
pub uninterp spec fn expr_macro_reparse(t: proc_macro2::TokenStream) -> Option<Seq<int>>;

/// Relies on `syn::parse2::<syn::ExprMacro>`: checks the snippet is a
/// macro-invocation expression and reserializes it.
#[verifier::external_body]
pub(crate) fn reparse_expr_macro(
    tokens: &proc_macro2::TokenStream,
) -> (r: Result<proc_macro2::TokenStream, Fault>)
    ensures
        r matches Ok(out) ==> expr_macro_reparse(*tokens) == Some(ts_trees(out)),
        r matches Err(e) ==> expr_macro_reparse(*tokens) is None && e matches Fault::Grammar(_),
{
    match syn::parse2::<syn::ExprMacro>(tokens.clone()) {
        Ok(n) => Ok(n.to_token_stream()),
        Err(e) => Err(Fault::Grammar(e)),
    }
}

/// What the snippet reserializes to when it parses as this expression
/// kind: a function of its tokens.
pub uninterp spec fn expr_path_reparse(t: proc_macro2::TokenStream) -> Option<Seq<int>>;

/// Relies on `syn::parse2::<syn::ExprPath>`: checks the snippet is a
/// path expression and reserializes it.
#[verifier::external_body]
pub(crate) fn reparse_expr_path(
    tokens: &proc_macro2::TokenStream,
) -> (r: Result<proc_macro2::TokenStream, Fault>)
    ensures
        r matches Ok(out) ==> expr_path_reparse(*tokens) == Some(ts_trees(out)),
        r matches Err(e) ==> expr_path_reparse(*tokens) is None && e matches Fault::Grammar(_),
{
    match syn::parse2::<syn::ExprPath>(tokens.clone()) {
        Ok(n) => Ok(n.to_token_stream()),
        Err(e) => Err(Fault::Grammar(e)),
    }
}

} // verus!
