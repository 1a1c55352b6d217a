//! From parse trees to typed syntax trees.
//!
//! The grammar itself is applied elsewhere; what arrives here is the tree
//! of matched rules, each node with the text that it spans.

use crate::error::CompileError;
use crate::expr::{
    name_models, typed_model, typed_models, typed_name_models, BaseExpr, ExprV, Node, TypedExpr,
};
use crate::number::{parse_number, parsed_number};
use crate::types::{models, name_is, prim, Ty, TyName};
use vstd::prelude::*;

verus! {

/// The rules of the grammar that the conversion tells apart.
#[derive(Clone, Copy, Debug, PartialEq, Eq)]
pub enum Rule {
    File,
    ImportModule,
    ParfunDecl,
    RetType,
    BaseExpr,
    ReturnExpr,
    LetExpr,
    MutLet,
    Assignment,
    ValueExpr,
    Value,
    FuncCall,
    BinOp,
    Ident,
    Number,
    MutType,
    ArrType,
    TypeIdent,
    ImmutType,
    /// Any other rule.
    Other,
}

/// A node of a parse tree: the rule that matched, the text that it spans
/// and the nodes of the rules that matched inside it.
#[derive(Debug)]
pub struct Pair {
    pub rule: Rule,
    pub text: String,
    pub inner: Vec<Pair>,
}

/// The mathematical value of a [`Pair`].
pub struct PairV {
    pub rule: Rule,
    pub text: Seq<char>,
    pub inner: Seq<PairV>,
}

impl Pair {
    /// The mathematical value of this node.
    pub open spec fn model(self) -> PairV
        decreases self,
    {
        PairV {
            rule: self.rule,
            text: self.text@,
            inner: Seq::new(
                self.inner@.len(),
                |i: int|
                    if 0 <= i < self.inner@.len() {
                        self.inner@[i].model()
                    } else {
                        PairV { rule: Rule::Other, text: Seq::empty(), inner: Seq::empty() }
                    },
            ),
        }
    }
}

impl View for Pair {
    type V = PairV;

    open spec fn view(&self) -> PairV {
        self.model()
    }
}

/// The mathematical values of a list of nodes.
pub open spec fn pair_models(list: Seq<Pair>) -> Seq<PairV> {
    Seq::new(list.len(), |i: int| list[i]@)
}

/// The value of a node is made of the values of its parts.
pub proof fn lemma_pair_model(pair: Pair)
    ensures
        pair@.rule == pair.rule,
        pair@.text == pair.text@,
        pair@.inner == pair_models(pair.inner@),
{
    assert(pair@.inner =~= pair_models(pair.inner@));
}

/// The parser of the language, as far as it is independent of the
/// grammar: the conversion of parse trees.
#[derive(Debug)]
pub struct RudaParser {}

/// What a conversion yields, or why it fails.
pub type Walked<T> = Result<T, CompileError>;

/// What is left of a chain of operations when an operator binds too
/// loosely to be taken: the operator and the operands after it.
pub type Leftover = Option<(PairV, Seq<PairV>)>;

/// The type that a node of a type rule stands for.
///
/// An identifier is a primitive of that name; the rules for assignable and
/// array types wrap the type of their first part; the rules that only
/// group stand for the type of their first part. Any other rule stands for
/// `Unit`.
pub open spec fn type_of_pair(ty: PairV) -> Walked<Ty>
    decreases ty,
{
    match ty.rule {
        Rule::Ident => Ok(Ty::Name(ty.text)),
        Rule::MutType => if ty.inner.len() == 0 {
            Err(CompileError::MalformedSyntax)
        } else {
            match type_of_pair(ty.inner[0]) {
                Ok(inner) => Ok(Ty::Mut(Box::new(inner))),
                Err(e) => Err(e),
            }
        },
        Rule::ArrType => if ty.inner.len() == 0 {
            Err(CompileError::MalformedSyntax)
        } else {
            match type_of_pair(ty.inner[0]) {
                Ok(inner) => Ok(Ty::Array(Box::new(inner))),
                Err(e) => Err(e),
            }
        },
        Rule::TypeIdent | Rule::ImmutType | Rule::RetType => if ty.inner.len() == 0 {
            Err(CompileError::MalformedSyntax)
        } else {
            type_of_pair(ty.inner[0])
        },
        _ => Ok(Ty::Unit),
    }
}

/// The priority of a binary operator, and whether it groups to the left.
pub open spec fn priority_of(op: Seq<char>) -> Option<(int, bool)> {
    if op == "+"@ || op == "-"@ {
        Some((1, true))
    } else if op == "*"@ || op == "/"@ {
        Some((2, true))
    } else {
        None
    }
}

/// The node of a binary operation: a call of the built-in operation named
/// by `@` and the operator, whose type is a placeholder.
pub open spec fn bin_node(op: Seq<char>, lhs: Node, rhs: Node) -> Node {
    (ExprV::FuncCall("@"@ + op, seq![lhs, rhs]), Ty::Var("ret@"@ + ("@"@ + op)))
}

/// The node of a value: an identifier, whose type is a placeholder of its
/// name, or an integer literal.
pub open spec fn value_node(body: Seq<PairV>) -> Walked<Node> {
    if body.len() == 0 {
        Err(CompileError::MalformedSyntax)
    } else {
        match body[0].rule {
            Rule::Ident => Ok((ExprV::Ident(body[0].text), Ty::Var(body[0].text))),
            Rule::Number => match parsed_number(body[0].text) {
                Some(number) => Ok((ExprV::ConstantInt(number), prim("i64"))),
                None => Err(CompileError::MalformedSyntax),
            },
            _ => Ok((ExprV::Nope, Ty::Unit)),
        }
    }
}

/// The node of the expression at the head of `body`, as far as its
/// operators bind at least as tightly as `prec`, and what is left of the
/// chain.
///
/// A value stands for itself. A call takes the first part as its name and
/// every further part as an argument; its type is a placeholder. A chain
/// of binary operations is grouped by priority, operators of the same
/// priority from the left.
pub open spec fn climbed(body: Seq<PairV>, prec: int) -> Walked<(Node, Leftover)>
    decreases body, 0nat,
{
    if body.len() == 0 {
        Err(CompileError::MalformedSyntax)
    } else {
        let primary = body[0];
        match primary.rule {
            Rule::Value => match value_node(primary.inner) {
                Ok(value) => Ok((value, None)),
                Err(e) => Err(e),
            },
            Rule::FuncCall => if primary.inner.len() == 0 {
                Err(CompileError::MalformedSyntax)
            } else {
                match call_args(primary.inner, primary.inner.len()) {
                    Ok(args) => Ok(
                        (
                            (
                                ExprV::FuncCall(primary.inner[0].text, args),
                                Ty::Var("ret@"@ + primary.inner[0].text),
                            ),
                            None,
                        ),
                    ),
                    Err(e) => Err(e),
                }
            },
            Rule::BinOp => if primary.inner.len() < 3 {
                Err(CompileError::MalformedSyntax)
            } else {
                match value_node(primary.inner[0].inner) {
                    Ok(lhs) => climbed_on(lhs, primary.inner[1], primary.inner[2].inner, prec),
                    Err(e) => Err(e),
                }
            },
            _ => Ok(((ExprV::Nope, Ty::Unit), None)),
        }
    }
}

/// The arguments of a call: the value expressions of the parts after the
/// first, up to position `upto`.
pub open spec fn call_args(parts: Seq<PairV>, upto: nat) -> Walked<Seq<Node>>
    decreases parts, upto,
{
    if upto <= 1 || upto > parts.len() {
        Ok(Seq::empty())
    } else {
        match call_args(parts, (upto - 1) as nat) {
            Err(e) => Err(e),
            Ok(before) => match value_expr(parts[upto - 1].inner) {
                Ok(arg) => Ok(before.push(arg)),
                Err(e) => Err(e),
            },
        }
    }
}

/// The node of a value expression: the whole chain, whatever the priority
/// of its operators.
pub open spec fn value_expr(body: Seq<PairV>) -> Walked<Node>
    decreases body, 1nat,
{
    match climbed(body, 0) {
        Ok((value, _)) => Ok(value),
        Err(e) => Err(e),
    }
}

/// Continues a chain: `result` is what was read so far, `op` the operator
/// that follows and `remnants` the operands after it.
///
/// An operator that binds more loosely than `prec` is left to the caller
/// together with the operands after it. Any other operator takes as its
/// right operand what binds more tightly than itself, and the chain goes
/// on behind that.
pub open spec fn climbed_on(result: Node, op: PairV, remnants: Seq<PairV>, prec: int) -> Walked<
    (Node, Leftover),
>
    decreases remnants, 1nat,
{
    match priority_of(op.text) {
        None => Err(CompileError::MalformedSyntax),
        Some((prior, left)) => if prior < prec {
            Ok(
                (
                    result,
                    if remnants.len() > 0 {
                        Some((op, remnants))
                    } else {
                        None
                    },
                ),
            )
        } else {
            let next_prior = if left {
                prior + 1
            } else {
                prior
            };
            match climbed(remnants, next_prior) {
                Err(e) => Err(e),
                Ok((rhs, rest)) => {
                    let joined = bin_node(op.text, result, rhs);
                    match rest {
                        None => Ok((joined, None)),
                        Some((next_op, next)) => if decreases_to!(remnants => next) {
                            climbed_on(joined, next_op, next, prec)
                        } else {
                            Err(CompileError::MalformedSyntax)
                        },
                    }
                },
            }
        },
    }
}

/// The node of one statement of a body: a return with or without a value,
/// a binding, an assignment or a value expression. Anything else is a
/// placeholder.
pub open spec fn statement(expr: PairV) -> Walked<Node> {
    match expr.rule {
        Rule::BaseExpr => if expr.inner.len() == 0 {
            Err(CompileError::MalformedSyntax)
        } else {
            let inner = expr.inner[0];
            let parts = inner.inner;
            match inner.rule {
                Rule::ReturnExpr => if parts.len() == 0 {
                    Ok((ExprV::RetNull, Ty::Unit))
                } else {
                    match value_expr(parts[0].inner) {
                        Ok(value) => Ok((ExprV::Return(Box::new(value)), value.1)),
                        Err(e) => Err(e),
                    }
                },
                Rule::LetExpr => if parts.len() == 0 {
                    Err(CompileError::MalformedSyntax)
                } else {
                    let base: int = if parts[0].rule is MutLet {
                        1
                    } else {
                        0
                    };
                    if parts.len() < base + 2 {
                        Err(CompileError::MalformedSyntax)
                    } else {
                        match value_expr(parts[base + 1].inner) {
                            Ok(value) => Ok(
                                (
                                    ExprV::LetDecl(parts[base].text, base > 0, Box::new(value)),
                                    Ty::Unit,
                                ),
                            ),
                            Err(e) => Err(e),
                        }
                    }
                },
                Rule::Assignment => if parts.len() < 2 {
                    Err(CompileError::MalformedSyntax)
                } else {
                    match value_expr(parts[1].inner) {
                        Ok(value) => Ok(
                            (ExprV::Assign(parts[0].text, Box::new(value)), Ty::Unit),
                        ),
                        Err(e) => Err(e),
                    }
                },
                Rule::ValueExpr => value_expr(inner.inner),
                _ => Ok((ExprV::Nope, Ty::Unit)),
            }
        },
        _ => Ok((ExprV::Nope, Ty::Unit)),
    }
}

/// The nodes of the first `upto` statements of a body.
pub open spec fn statements(body: Seq<PairV>, upto: nat) -> Walked<Seq<Node>>
    decreases upto,
{
    if upto == 0 {
        Ok(Seq::empty())
    } else {
        match statements(body, (upto - 1) as nat) {
            Err(e) => Err(e),
            Ok(before) => match statement(body[upto - 1]) {
                Ok(node) => Ok(before.push(node)),
                Err(e) => Err(e),
            },
        }
    }
}

/// The name and the type of one parameter.
pub open spec fn param_of(item: PairV) -> Walked<(Seq<char>, Ty)> {
    if item.inner.len() < 2 {
        Err(CompileError::MalformedSyntax)
    } else {
        match type_of_pair(item.inner[1]) {
            Ok(ty) => Ok((item.inner[0].text, ty)),
            Err(e) => Err(e),
        }
    }
}

/// The names and types of the first `upto` parameters.
pub open spec fn params_of(items: Seq<PairV>, upto: nat) -> Walked<Seq<(Seq<char>, Ty)>>
    decreases upto,
{
    if upto == 0 {
        Ok(Seq::empty())
    } else {
        match params_of(items, (upto - 1) as nat) {
            Err(e) => Err(e),
            Ok(before) => match param_of(items[upto - 1]) {
                Ok(param) => Ok(before.push(param)),
                Err(e) => Err(e),
            },
        }
    }
}

/// The texts of a list of nodes.
pub open spec fn texts_of(items: Seq<PairV>) -> Seq<Seq<char>> {
    Seq::new(items.len(), |i: int| items[i].text)
}

/// The types of a list of parameters.
pub open spec fn param_types(params: Seq<(Seq<char>, Ty)>) -> Seq<Ty> {
    Seq::new(params.len(), |i: int| params[i].1)
}

/// The function that a node of a function stands for, with its signature.
///
/// The first part of the node is the head, the second the body. The head
/// ends with the return type, if it names one; the function returns `Unit`
/// otherwise. The head of a kernel starts with the names of the components
/// of the thread index, followed by the name and the parameters; the head
/// of any other function starts with the name, followed by the parameters.
pub open spec fn function_of(func: PairV) -> Walked<Node> {
    if func.inner.len() < 2 {
        Err(CompileError::MalformedSyntax)
    } else {
        let head = func.inner[0].inner;
        let body = func.inner[1].inner;
        if head.len() == 0 {
            Err(CompileError::MalformedSyntax)
        } else {
            let is_par = head[0].rule is ParfunDecl;
            let at: int = if is_par {
                1
            } else {
                0
            };
            if head.len() < at + 2 || (is_par && head[0].inner.len() == 0) {
                Err(CompileError::MalformedSyntax)
            } else {
                let ret = if head.last().rule is RetType {
                    type_of_pair(head.last())
                } else {
                    Ok(Ty::Unit)
                };
                let para_in = if is_par {
                    texts_of(head[0].inner[0].inner)
                } else {
                    Seq::empty()
                };
                match (
                    ret,
                    params_of(head[at + 1].inner, head[at + 1].inner.len()),
                    statements(body, body.len()),
                ) {
                    (Ok(ret), Ok(params), Ok(body)) => Ok(
                        (
                            ExprV::FuncDecl {
                                ident: head[at].text,
                                para_in,
                                is_par,
                                params,
                                ret,
                                body,
                            },
                            Ty::Arrow(
                                Box::new(Ty::Tuple(param_types(params))),
                                Box::new(ret),
                            ),
                        ),
                    ),
                    _ => Err(CompileError::MalformedSyntax),
                }
            }
        }
    }
}

/// The functions of the first `upto` nodes.
pub open spec fn functions_walked(pairs: Seq<PairV>, upto: nat) -> Walked<Seq<Node>>
    decreases upto,
{
    if upto == 0 {
        Ok(Seq::empty())
    } else {
        match functions_walked(pairs, (upto - 1) as nat) {
            Err(e) => Err(e),
            Ok(before) => match function_of(pairs[upto - 1]) {
                Ok(node) => Ok(before.push(node)),
                Err(e) => Err(e),
            },
        }
    }
}

/// The paths that the first `upto` items of a file import: for each import
/// the text of its last part.
pub open spec fn imports_of(items: Seq<PairV>, upto: nat) -> Seq<Seq<char>>
    decreases upto,
{
    if upto == 0 {
        Seq::empty()
    } else {
        let before = imports_of(items, (upto - 1) as nat);
        let item = items[upto - 1];
        if item.rule is ImportModule && item.inner.len() > 0 {
            before.push(item.inner.last().text)
        } else {
            before
        }
    }
}

/// What a conversion returned agrees with the node it is to yield.
pub open spec fn agrees(result: Result<TypedExpr, CompileError>, expected: Walked<Node>) -> bool {
    match expected {
        Ok(node) => result matches Ok(walked) && typed_model(walked) == node,
        Err(e) => result matches Err(got) && got == e,
    }
}

/// What a conversion returned agrees with the nodes it is to yield.
pub open spec fn list_agrees(
    result: Result<Vec<TypedExpr>, CompileError>,
    expected: Walked<Seq<Node>>,
) -> bool {
    match expected {
        Ok(nodes) => result matches Ok(walked) && typed_models(walked@) == nodes,
        Err(e) => result matches Err(got) && got == e,
    }
}

/// What a step of the climb returned agrees with what it is to yield.
pub open spec fn climb_agrees(
    result: Result<(TypedExpr, Option<(&Pair, &Vec<Pair>)>), CompileError>,
    expected: Walked<(Node, Leftover)>,
) -> bool {
    match expected {
        Ok((node, left)) => {
            &&& result matches Ok((walked, rest))
            &&& typed_model(walked) == node
            &&& match left {
                None => rest is None,
                Some((op, operands)) => rest matches Some((o, r)) && o@ == op && pair_models(r@)
                    == operands,
            }
        },
        Err(e) => result matches Err(got) && got == e,
    }
}

proof fn lemma_call_args_error_stays(parts: Seq<PairV>, failed: nat, upto: nat)
    requires
        failed <= upto <= parts.len(),
        call_args(parts, failed) is Err,
    ensures
        call_args(parts, upto) == call_args(parts, failed),
    decreases upto,
{
    if failed < upto {
        lemma_call_args_error_stays(parts, failed, (upto - 1) as nat);
    }
}

proof fn lemma_statements_error_stays(body: Seq<PairV>, failed: nat, upto: nat)
    requires
        failed <= upto,
        statements(body, failed) is Err,
    ensures
        statements(body, upto) == statements(body, failed),
    decreases upto,
{
    if failed < upto {
        lemma_statements_error_stays(body, failed, (upto - 1) as nat);
    }
}

proof fn lemma_params_error_stays(items: Seq<PairV>, failed: nat, upto: nat)
    requires
        failed <= upto,
        params_of(items, failed) is Err,
    ensures
        params_of(items, upto) == params_of(items, failed),
    decreases upto,
{
    if failed < upto {
        lemma_params_error_stays(items, failed, (upto - 1) as nat);
    }
}

proof fn lemma_functions_error_stays(pairs: Seq<PairV>, failed: nat, upto: nat)
    requires
        failed <= upto,
        functions_walked(pairs, failed) is Err,
    ensures
        functions_walked(pairs, upto) == functions_walked(pairs, failed),
    decreases upto,
{
    if failed < upto {
        lemma_functions_error_stays(pairs, failed, (upto - 1) as nat);
    }
}

/// Converts a node of a type rule to the type that it stands for.
pub fn walk_ty(ty: &Pair) -> (result: Result<TyName, CompileError>)
    ensures
        match type_of_pair(ty@) {
            Ok(expected) => result matches Ok(walked) && walked@ == expected,
            Err(e) => result matches Err(got) && got == e,
        },
    decreases ty,
{
    proof {
        lemma_pair_model(*ty);
    }
    match ty.rule {
        Rule::Ident => Ok(TyName::NameBind(ty.text.clone())),
        Rule::MutType => {
            if ty.inner.len() == 0 {
                return Err(CompileError::MalformedSyntax);
            }
            match walk_ty(&ty.inner[0]) {
                Ok(inner) => Ok(TyName::MutBind(Box::new(inner))),
                Err(e) => Err(e),
            }
        },
        Rule::ArrType => {
            if ty.inner.len() == 0 {
                return Err(CompileError::MalformedSyntax);
            }
            match walk_ty(&ty.inner[0]) {
                Ok(inner) => Ok(TyName::Array(Box::new(inner))),
                Err(e) => Err(e),
            }
        },
        Rule::TypeIdent | Rule::ImmutType | Rule::RetType => {
            if ty.inner.len() == 0 {
                return Err(CompileError::MalformedSyntax);
            }
            walk_ty(&ty.inner[0])
        },
        _ => Ok(TyName::Unit),
    }
}

/// The priority of a binary operator, and whether it groups to the left.
fn priority(op: &String) -> (found: Option<(i32, bool)>)
    ensures
        match priority_of(op@) {
            Some((prior, left)) => found == Some((prior as i32, left)) && 1 <= prior <= 2,
            None => found is None,
        },
{
    if name_is(op, "+") || name_is(op, "-") {
        Some((1, true))
    } else if name_is(op, "*") || name_is(op, "/") {
        Some((2, true))
    } else {
        None
    }
}

/// The call of the built-in operation that the operator `op` stands for,
/// on the two operands.
pub fn gen_bin_op(op: &String, lhs: TypedExpr, rhs: TypedExpr) -> (node: TypedExpr)
    ensures
        typed_model(node) == bin_node(op@, typed_model(lhs), typed_model(rhs)),
{
    let mut name = String::from_str("@");
    name.append(op.as_str());
    let mut tag = String::from_str("ret@");
    tag.append(name.as_str());
    let ghost left = typed_model(lhs);
    let ghost right = typed_model(rhs);
    let args: Vec<TypedExpr> = vec![lhs, rhs];
    let node = (BaseExpr::FuncCall(name, args), TyName::VarBind(tag));
    assert(node.0@->FuncCall_1 =~= seq![left, right]);
    node
}

/// Converts the node of a value.
pub fn walk_value_node(body: &Vec<Pair>) -> (result: Result<TypedExpr, CompileError>)
    ensures
        agrees(result, value_node(pair_models(body@))),
{
    if body.len() == 0 {
        return Err(CompileError::MalformedSyntax);
    }
    let inner = &body[0];
    proof {
        lemma_pair_model(*inner);
    }
    match inner.rule {
        Rule::Ident => Ok((BaseExpr::Ident(inner.text.clone()), TyName::VarBind(inner.text.clone()))),
        Rule::Number => match parse_number(inner.text.as_str()) {
            Some(number) => Ok((BaseExpr::ConstantInt(number), TyName::named("i64"))),
            None => Err(CompileError::MalformedSyntax),
        },
        _ => Ok((BaseExpr::Nope, TyName::Unit)),
    }
}

/// Converts a value expression.
pub fn walk_value_expr(body: &Vec<Pair>) -> (result: Result<TypedExpr, CompileError>)
    ensures
        agrees(result, value_expr(pair_models(body@))),
    decreases body, 1nat,
{
    match walk_value_expr_with_climber(body, 0) {
        Ok((value, _)) => Ok(value),
        Err(e) => Err(e),
    }
}

/// Converts the expression at the head of `body`, as far as its operators
/// bind at least as tightly as `prec_val`. Hands back the node and what is
/// left of the chain: the operator that binds too loosely and the operands
/// after it.
#[verifier::loop_isolation(false)]
pub fn walk_value_expr_with_climber<'a>(body: &'a Vec<Pair>, prec_val: i32) -> (result: Result<
    (TypedExpr, Option<(&'a Pair, &'a Vec<Pair>)>),
    CompileError,
>)
    ensures
        climb_agrees(result, climbed(pair_models(body@), prec_val as int)),
        result matches Ok((_, Some((_, rest)))) ==> decreases_to!(*body => *rest),
        result matches Ok((_, Some((_, rest)))) ==> decreases_to!(
            pair_models(body@) => pair_models(rest@)
        ),
    decreases body, 0nat,
{
    if body.len() == 0 {
        return Err(CompileError::MalformedSyntax);
    }
    let primary = &body[0];
    proof {
        lemma_pair_model(*primary);
        assert(pair_models(body@)[0] == primary@);
    }
    match primary.rule {
        Rule::Value => match walk_value_node(&primary.inner) {
            Ok(value) => Ok((value, None)),
            Err(e) => Err(e),
        },
        Rule::FuncCall => {
            let parts = &primary.inner;
            if parts.len() == 0 {
                return Err(CompileError::MalformedSyntax);
            }
            let mut args: Vec<TypedExpr> = Vec::new();
            let mut at: usize = 1;
            assert(typed_models(args@) =~= Seq::<Node>::empty());
            while at < parts.len()
                invariant
                    1 <= at <= parts.len(),
                    *primary == body@[0],
                    *parts == primary.inner,
                    call_args(pair_models(parts@), at as nat) == Ok::<Seq<Node>, CompileError>(
                        typed_models(args@),
                    ),
                decreases parts.len() - at,
            {
                let ghost before = typed_models(args@);
                assert(decreases_to!(*body => primary.inner));
                proof {
                    lemma_pair_model(parts@[at as int]);
                    assert(pair_models(parts@)[at as int] == parts@[at as int]@);
                }
                match walk_value_expr(&parts[at].inner) {
                    Ok(arg) => {
                        args.push(arg);
                        assert(typed_models(args@) =~= before.push(typed_model(arg)));
                    },
                    Err(e) => {
                        proof {
                            lemma_call_args_error_stays(
                                pair_models(parts@),
                                (at + 1) as nat,
                                parts@.len(),
                            );
                        }
                        return Err(e);
                    },
                }
                at += 1;
            }
            proof {
                lemma_pair_model(parts@[0]);
                assert(pair_models(parts@)[0] == parts@[0]@);
            }
            let mut tag = String::from_str("ret@");
            tag.append(parts[0].text.as_str());
            let ghost list = typed_models(args@);
            let node = (BaseExpr::FuncCall(parts[0].text.clone(), args), TyName::VarBind(tag));
            assert(node.0@->FuncCall_1 =~= list);
            Ok((node, None))
        },
        Rule::BinOp => {
            let parts = &primary.inner;
            if parts.len() < 3 {
                return Err(CompileError::MalformedSyntax);
            }
            proof {
                lemma_pair_model(parts@[0]);
                lemma_pair_model(parts@[1]);
                lemma_pair_model(parts@[2]);
                assert(pair_models(parts@)[0] == parts@[0]@);
                assert(pair_models(parts@)[1] == parts@[1]@);
                assert(pair_models(parts@)[2] == parts@[2]@);
            }
            let lhs = match walk_value_node(&parts[0].inner) {
                Ok(lhs) => lhs,
                Err(e) => {
                    return Err(e);
                },
            };
            assert(decreases_to!(*body => primary.inner));
            assert(decreases_to!(primary.inner => primary.inner@[2].inner));
            proof {
                let list = pair_models(body@);
                assert(decreases_to!(list => list[0]));
                assert(decreases_to!(list[0] => list[0].inner));
                assert(decreases_to!(list[0].inner => list[0].inner[2]));
                assert(decreases_to!(list[0].inner[2] => list[0].inner[2].inner));
                assert(list[0].inner[2].inner == pair_models(parts@[2].inner@));
            }
            climb_on(lhs, &parts[1], &parts[2].inner, prec_val)
        },
        _ => Ok(((BaseExpr::Nope, TyName::Unit), None)),
    }
}

/// Continues a chain of binary operations behind `result` with the
/// operator `op` and the operands `remnants`.
fn climb_on<'a>(result: TypedExpr, op: &'a Pair, remnants: &'a Vec<Pair>, prec_val: i32) -> (out:
    Result<(TypedExpr, Option<(&'a Pair, &'a Vec<Pair>)>), CompileError>)
    ensures
        climb_agrees(
            out,
            climbed_on(typed_model(result), op@, pair_models(remnants@), prec_val as int),
        ),
        out matches Ok((_, Some((_, rest)))) ==> *rest == *remnants || decreases_to!(
            *remnants => *rest
        ),
        out matches Ok((_, Some((_, rest)))) ==> pair_models(rest@) == pair_models(remnants@)
            || decreases_to!(pair_models(remnants@) => pair_models(rest@)),
    decreases remnants, 1nat,
{
    proof {
        lemma_pair_model(*op);
    }
    let (prior, left) = match priority(&op.text) {
        Some(found) => found,
        None => {
            return Err(CompileError::MalformedSyntax);
        },
    };
    if prior < prec_val {
        if remnants.len() > 0 {
            return Ok((result, Some((op, remnants))));
        } else {
            return Ok((result, None));
        }
    }
    let next_prior: i32 = if left {
        prior + 1
    } else {
        prior
    };
    let (rhs, rest) = match walk_value_expr_with_climber(remnants, next_prior) {
        Ok(climbed) => climbed,
        Err(e) => {
            return Err(e);
        },
    };
    let joined = gen_bin_op(&op.text, result, rhs);
    match rest {
        None => Ok((joined, None)),
        Some((next_op, next)) => climb_on(joined, next_op, next, prec_val),
    }
}

/// Converts one statement of a body.
fn walk_statement(expr: &Pair) -> (result: Result<TypedExpr, CompileError>)
    ensures
        agrees(result, statement(expr@)),
{
    proof {
        lemma_pair_model(*expr);
    }
    match expr.rule {
        Rule::BaseExpr => {
            if expr.inner.len() == 0 {
                return Err(CompileError::MalformedSyntax);
            }
            let inner = &expr.inner[0];
            let parts = &inner.inner;
            proof {
                lemma_pair_model(*inner);
                assert(pair_models(expr.inner@)[0] == inner@);
                assert forall|i: int| 0 <= i < parts@.len() implies {
                    &&& (#[trigger] pair_models(parts@)[i]).inner == pair_models(
                        parts@[i].inner@,
                    )
                    &&& pair_models(parts@)[i].rule == parts@[i].rule
                    &&& pair_models(parts@)[i].text == parts@[i].text@
                } by {
                    lemma_pair_model(parts@[i]);
                }
            }
            match inner.rule {
                Rule::ReturnExpr => {
                    if parts.len() == 0 {
                        return Ok((BaseExpr::RetNull, TyName::Unit));
                    }
                    match walk_value_expr(&parts[0].inner) {
                        Ok(value) => {
                            let ty = value.1.clone();
                            Ok((BaseExpr::Return(Box::new(value)), ty))
                        },
                        Err(e) => Err(e),
                    }
                },
                Rule::LetExpr => {
                    if parts.len() == 0 {
                        return Err(CompileError::MalformedSyntax);
                    }
                    let base: usize = match parts[0].rule {
                        Rule::MutLet => 1,
                        _ => 0,
                    };
                    if parts.len() < base + 2 {
                        return Err(CompileError::MalformedSyntax);
                    }
                    match walk_value_expr(&parts[base + 1].inner) {
                        Ok(value) => Ok(
                            (
                                BaseExpr::LetDecl(
                                    parts[base].text.clone(),
                                    base > 0,
                                    Box::new(value),
                                ),
                                TyName::Unit,
                            ),
                        ),
                        Err(e) => Err(e),
                    }
                },
                Rule::Assignment => {
                    if parts.len() < 2 {
                        return Err(CompileError::MalformedSyntax);
                    }
                    match walk_value_expr(&parts[1].inner) {
                        Ok(value) => Ok(
                            (BaseExpr::Assign(parts[0].text.clone(), Box::new(value)), TyName::Unit),
                        ),
                        Err(e) => Err(e),
                    }
                },
                Rule::ValueExpr => walk_value_expr(parts),
                _ => Ok((BaseExpr::Nope, TyName::Unit)),
            }
        },
        _ => Ok((BaseExpr::Nope, TyName::Unit)),
    }
}

/// Converts the statements of a body, in order.
pub fn walk_fun_body(body: &Vec<Pair>) -> (result: Result<Vec<TypedExpr>, CompileError>)
    ensures
        list_agrees(result, statements(pair_models(body@), body@.len())),
{
    let mut nodes: Vec<TypedExpr> = Vec::new();
    let mut at: usize = 0;
    assert(typed_models(nodes@) =~= Seq::<Node>::empty());
    while at < body.len()
        invariant
            at <= body.len(),
            statements(pair_models(body@), at as nat) == Ok::<Seq<Node>, CompileError>(
                typed_models(nodes@),
            ),
        decreases body.len() - at,
    {
        let ghost before = typed_models(nodes@);
        match walk_statement(&body[at]) {
            Ok(node) => {
                nodes.push(node);
                assert(typed_models(nodes@) =~= before.push(typed_model(node)));
            },
            Err(e) => {
                proof {
                    lemma_statements_error_stays(
                        pair_models(body@),
                        (at + 1) as nat,
                        body@.len(),
                    );
                }
                return Err(e);
            },
        }
        at += 1;
    }
    Ok(nodes)
}

/// Converts the parameters of a function: each with its name and its
/// type.
fn walk_params(items: &Vec<Pair>) -> (result: Result<Vec<(String, TyName)>, CompileError>)
    ensures
        match params_of(pair_models(items@), items@.len()) {
            Ok(params) => result matches Ok(walked) && typed_name_models(walked@)
                == params,
            Err(e) => result matches Err(got) && got == e,
        },
{
    let mut params: Vec<(String, TyName)> = Vec::new();
    let mut at: usize = 0;
    assert(typed_name_models(params@) =~= Seq::<(Seq<char>, Ty)>::empty());
    while at < items.len()
        invariant
            at <= items.len(),
            params_of(pair_models(items@), at as nat) == Ok::<Seq<(Seq<char>, Ty)>, CompileError>(
                typed_name_models(params@),
            ),
        decreases items.len() - at,
    {
        let ghost before = typed_name_models(params@);
        let item = &items[at];
        proof {
            lemma_pair_model(*item);
            assert(pair_models(items@)[at as int] == item@);
            if item.inner@.len() >= 2 {
                lemma_pair_model(item.inner@[0]);
                assert(pair_models(item.inner@)[0] == item.inner@[0]@);
                assert(pair_models(item.inner@)[1] == item.inner@[1]@);
            }
        }
        let walked = if item.inner.len() < 2 {
            Err(CompileError::MalformedSyntax)
        } else {
            walk_ty(&item.inner[1])
        };
        match walked {
            Ok(ty) => {
                params.push((item.inner[0].text.clone(), ty));
                assert(typed_name_models(params@) =~= before.push(
                    (item.inner@[0].text@, ty@),
                ));
            },
            Err(e) => {
                proof {
                    lemma_params_error_stays(pair_models(items@), (at + 1) as nat, items@.len());
                }
                return Err(e);
            },
        }
        at += 1;
    }
    Ok(params)
}

/// The texts of a list of nodes.
fn texts(items: &Vec<Pair>) -> (list: Vec<String>)
    ensures
        name_models(list@) == texts_of(pair_models(items@)),
{
    let mut list: Vec<String> = Vec::new();
    let mut at: usize = 0;
    while at < items.len()
        invariant
            at <= items.len(),
            list@.len() == at,
            forall|i: int| 0 <= i < at ==> list@[i]@ == items@[i].text@,
        decreases items.len() - at,
    {
        list.push(items[at].text.clone());
        at += 1;
    }
    assert forall|i: int| 0 <= i < items@.len() implies (#[trigger] pair_models(items@)[i]).text
        == items@[i].text@ by {
        lemma_pair_model(items@[i]);
    }
    assert(name_models(list@) =~= texts_of(pair_models(items@)));
    list
}

/// The types of a list of parameters.
fn types_of(params: &Vec<(String, TyName)>) -> (list: Vec<TyName>)
    ensures
        models(list@) == param_types(typed_name_models(params@)),
{
    let mut list: Vec<TyName> = Vec::new();
    let mut at: usize = 0;
    while at < params.len()
        invariant
            at <= params.len(),
            list@.len() == at,
            forall|i: int| 0 <= i < at ==> list@[i]@ == params@[i].1@,
        decreases params.len() - at,
    {
        list.push(params[at].1.clone());
        at += 1;
    }
    assert(models(list@) =~= param_types(typed_name_models(params@)));
    list
}

/// Converts the node of a function to the function and its signature.
pub fn walk_func(func: &Pair) -> (result: Result<TypedExpr, CompileError>)
    ensures
        agrees(result, function_of(func@)),
{
    proof {
        lemma_pair_model(*func);
    }
    if func.inner.len() < 2 {
        return Err(CompileError::MalformedSyntax);
    }
    let head = &func.inner[0].inner;
    let body = &func.inner[1].inner;
    proof {
        lemma_pair_model(func.inner@[0]);
        lemma_pair_model(func.inner@[1]);
        assert(pair_models(func.inner@)[0] == func.inner@[0]@);
        assert(pair_models(func.inner@)[1] == func.inner@[1]@);
        assert forall|i: int| 0 <= i < head@.len() implies {
            &&& (#[trigger] pair_models(head@)[i]).inner == pair_models(head@[i].inner@)
            &&& pair_models(head@)[i].rule == head@[i].rule
            &&& pair_models(head@)[i].text == head@[i].text@
            &&& pair_models(head@)[i] == head@[i]@
        } by {
            lemma_pair_model(head@[i]);
        }
    }
    if head.len() == 0 {
        return Err(CompileError::MalformedSyntax);
    }
    let is_par = match head[0].rule {
        Rule::ParfunDecl => true,
        _ => false,
    };
    let at: usize = if is_par {
        1
    } else {
        0
    };
    if head.len() < at + 2 || (is_par && head[0].inner.len() == 0) {
        return Err(CompileError::MalformedSyntax);
    }
    let last = &head[head.len() - 1];
    let ret = match last.rule {
        Rule::RetType => walk_ty(last),
        _ => Ok(TyName::Unit),
    };
    proof {
        if is_par {
            lemma_pair_model(head@[0].inner@[0]);
            assert(pair_models(head@[0].inner@)[0] == head@[0].inner@[0]@);
        }
    }
    let para_in = if is_par {
        texts(&head[0].inner[0].inner)
    } else {
        Vec::new()
    };
    assert(!is_par ==> name_models(para_in@) =~= Seq::<Seq<char>>::empty());
    let params = walk_params(&head[at + 1].inner);
    let statements = walk_fun_body(body);
    match (ret, params, statements) {
        (Ok(ret), Ok(params), Ok(statements)) => {
            let ghost list = typed_models(statements@);
            let signature = TyName::get_arrow(types_of(&params), ret.clone());
            let node = (
                BaseExpr::FuncDecl {
                    ident: head[at].text.clone(),
                    para_in,
                    is_par,
                    params,
                    ret,
                    body: statements,
                },
                signature,
            );
            assert(node.0@->FuncDecl_body =~= list);
            Ok(node)
        },
        _ => Err(CompileError::MalformedSyntax),
    }
}

/// Converts every node of a list to the function that it stands for.
pub fn walk_pairs(pairs: &Vec<Pair>) -> (result: Result<Vec<TypedExpr>, CompileError>)
    ensures
        list_agrees(result, functions_walked(pair_models(pairs@), pairs@.len())),
{
    let mut nodes: Vec<TypedExpr> = Vec::new();
    let mut at: usize = 0;
    assert(typed_models(nodes@) =~= Seq::<Node>::empty());
    while at < pairs.len()
        invariant
            at <= pairs.len(),
            functions_walked(pair_models(pairs@), at as nat) == Ok::<Seq<Node>, CompileError>(
                typed_models(nodes@),
            ),
        decreases pairs.len() - at,
    {
        let ghost before = typed_models(nodes@);
        match walk_func(&pairs[at]) {
            Ok(node) => {
                nodes.push(node);
                assert(typed_models(nodes@) =~= before.push(typed_model(node)));
            },
            Err(e) => {
                proof {
                    lemma_functions_error_stays(
                        pair_models(pairs@),
                        (at + 1) as nat,
                        pairs@.len(),
                    );
                }
                return Err(e);
            },
        }
        at += 1;
    }
    Ok(nodes)
}

impl RudaParser {
    /// The paths that a file imports, in order: `file` is the node of the
    /// whole file.
    pub fn imports(file: &Pair) -> (paths: Vec<String>)
        ensures
            name_models(paths@) == imports_of(file@.inner, file@.inner.len()),
    {
        proof {
            lemma_pair_model(*file);
        }
        let items = &file.inner;
        let mut paths: Vec<String> = Vec::new();
        let mut at: usize = 0;
        assert(name_models(paths@) =~= Seq::<Seq<char>>::empty());
        while at < items.len()
            invariant
                at <= items.len(),
                name_models(paths@) == imports_of(pair_models(items@), at as nat),
            decreases items.len() - at,
        {
            let ghost before = name_models(paths@);
            let item = &items[at];
            proof {
                lemma_pair_model(*item);
                assert(pair_models(items@)[at as int] == item@);
                if item.inner@.len() > 0 {
                    lemma_pair_model(item.inner@.last());
                    assert(pair_models(item.inner@).last() == item.inner@.last()@);
                }
            }
            match item.rule {
                Rule::ImportModule => {
                    if item.inner.len() > 0 {
                        let path = item.inner[item.inner.len() - 1].text.clone();
                        paths.push(path);
                        assert(name_models(paths@) =~= before.push(path@));
                    }
                },
                _ => {},
            }
            at += 1;
        }
        paths
    }

    /// The functions of a file: `file` is the node of the whole file, and
    /// each node inside it is converted.
    pub fn functions(file: &Pair) -> (result: Result<Vec<TypedExpr>, CompileError>)
        ensures
            list_agrees(result, functions_walked(file@.inner, file@.inner.len())),
    {
        proof {
            lemma_pair_model(*file);
        }
        walk_pairs(&file.inner)
    }
}

} // verus!
