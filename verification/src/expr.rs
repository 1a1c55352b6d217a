//! The typed syntax tree that is lowered.

use crate::types::{Ty, TyName};
use vstd::prelude::*;

verus! {

/// A node of the syntax tree together with its type; the type is a
/// placeholder until the node is lowered.
pub type TypedExpr = (BaseExpr, TyName);

/// A node of the syntax tree.
#[derive(Debug)]
pub enum BaseExpr {
    /// A function with a body. `para_in` names, by position, the
    /// components of the thread index that a device function binds; `_`
    /// stands for a component that is not bound.
    FuncDecl {
        ident: String,
        para_in: Vec<String>,
        is_par: bool,
        params: Vec<(String, TyName)>,
        ret: TyName,
        body: Vec<TypedExpr>,
    },
    /// A function whose body is given as text of the intermediate
    /// representation: name, parameters, return type, body.
    IntrinsicsFuncDecl(String, Vec<(String, TyName)>, TyName, String),
    /// A function that is defined elsewhere: name, parameters, return type.
    FuncVirtualDecl(String, Vec<(String, TyName)>, TyName),
    /// A call of the named function or built-in operation.
    FuncCall(String, Vec<TypedExpr>),
    /// A binding of a name to the value of an initializer; the flag says
    /// whether the binding is assignable.
    LetDecl(String, bool, Box<TypedExpr>),
    Assign(String, Box<TypedExpr>),
    Return(Box<TypedExpr>),
    /// A return without a value.
    RetNull,
    Ident(String),
    /// A floating-point literal, by the bits of its double-precision
    /// encoding.
    ConstantFloat(u64),
    ConstantInt(i64),
    /// A placeholder without meaning.
    Nope,
}

/// The mathematical value of a [`BaseExpr`]: names and texts are sequences
/// of characters, lists are sequences, and types are taken by their value.
pub enum ExprV {
    FuncDecl {
        ident: Seq<char>,
        para_in: Seq<Seq<char>>,
        is_par: bool,
        params: Seq<(Seq<char>, Ty)>,
        ret: Ty,
        body: Seq<(ExprV, Ty)>,
    },
    IntrinsicsFuncDecl(Seq<char>, Seq<(Seq<char>, Ty)>, Ty, Seq<char>),
    FuncVirtualDecl(Seq<char>, Seq<(Seq<char>, Ty)>, Ty),
    FuncCall(Seq<char>, Seq<(ExprV, Ty)>),
    LetDecl(Seq<char>, bool, Box<(ExprV, Ty)>),
    Assign(Seq<char>, Box<(ExprV, Ty)>),
    Return(Box<(ExprV, Ty)>),
    RetNull,
    Ident(Seq<char>),
    ConstantFloat(u64),
    ConstantInt(i64),
    Nope,
}

/// The mathematical values of a list of names.
pub open spec fn name_models(names: Seq<String>) -> Seq<Seq<char>> {
    Seq::new(names.len(), |i: int| names[i]@)
}

/// The mathematical values of a list of typed names.
pub open spec fn typed_name_models(params: Seq<(String, TyName)>) -> Seq<(Seq<char>, Ty)> {
    Seq::new(params.len(), |i: int| (params[i].0@, params[i].1@))
}

impl BaseExpr {
    /// The mathematical value of this node.
    pub open spec fn model(self) -> ExprV
        decreases self,
    {
        match self {
            BaseExpr::FuncDecl { ident, para_in, is_par, params, ret, body } => ExprV::FuncDecl {
                ident: ident@,
                para_in: name_models(para_in@),
                is_par,
                params: typed_name_models(params@),
                ret: ret@,
                body: Seq::new(
                    body@.len(),
                    |i: int|
                        if 0 <= i < body@.len() {
                            (body@[i].0.model(), body@[i].1@)
                        } else {
                            (ExprV::Nope, Ty::Unit)
                        },
                ),
            },
            BaseExpr::IntrinsicsFuncDecl(ident, params, ret, text) => ExprV::IntrinsicsFuncDecl(
                ident@,
                typed_name_models(params@),
                ret@,
                text@,
            ),
            BaseExpr::FuncVirtualDecl(ident, params, ret) => ExprV::FuncVirtualDecl(
                ident@,
                typed_name_models(params@),
                ret@,
            ),
            BaseExpr::FuncCall(name, args) => ExprV::FuncCall(
                name@,
                Seq::new(
                    args@.len(),
                    |i: int|
                        if 0 <= i < args@.len() {
                            (args@[i].0.model(), args@[i].1@)
                        } else {
                            (ExprV::Nope, Ty::Unit)
                        },
                ),
            ),
            BaseExpr::LetDecl(name, assignable, init) => ExprV::LetDecl(
                name@,
                assignable,
                Box::new(((*init).0.model(), (*init).1@)),
            ),
            BaseExpr::Assign(name, value) => ExprV::Assign(
                name@,
                Box::new(((*value).0.model(), (*value).1@)),
            ),
            BaseExpr::Return(value) => ExprV::Return(Box::new(((*value).0.model(), (*value).1@))),
            BaseExpr::RetNull => ExprV::RetNull,
            BaseExpr::Ident(name) => ExprV::Ident(name@),
            BaseExpr::ConstantFloat(bits) => ExprV::ConstantFloat(bits),
            BaseExpr::ConstantInt(number) => ExprV::ConstantInt(number),
            BaseExpr::Nope => ExprV::Nope,
        }
    }
}

impl View for BaseExpr {
    type V = ExprV;

    open spec fn view(&self) -> ExprV {
        self.model()
    }
}

/// A typed node in its mathematical form.
pub type Node = (ExprV, Ty);

/// The mathematical value of a typed node.
pub open spec fn typed_model(node: TypedExpr) -> Node {
    (node.0@, node.1@)
}

/// The mathematical values of a list of typed nodes.
pub open spec fn typed_models(nodes: Seq<TypedExpr>) -> Seq<Node> {
    Seq::new(nodes.len(), |i: int| typed_model(nodes[i]))
}

/// The value of a call is the call of the values of its arguments.
pub proof fn lemma_call_model(name: String, args: Vec<TypedExpr>)
    ensures
        BaseExpr::FuncCall(name, args)@ == ExprV::FuncCall(name@, typed_models(args@)),
{
    assert(BaseExpr::FuncCall(name, args)@->FuncCall_1 =~= typed_models(args@));
}

/// The value of a function is the function of the values of its parts.
pub proof fn lemma_function_model(
    ident: String,
    para_in: Vec<String>,
    is_par: bool,
    params: Vec<(String, TyName)>,
    ret: TyName,
    body: Vec<TypedExpr>,
)
    ensures
        (BaseExpr::FuncDecl { ident, para_in, is_par, params, ret, body })@ == (ExprV::FuncDecl {
            ident: ident@,
            para_in: name_models(para_in@),
            is_par,
            params: typed_name_models(params@),
            ret: ret@,
            body: typed_models(body@),
        }),
{
    assert((BaseExpr::FuncDecl { ident, para_in, is_par, params, ret, body })@->FuncDecl_body
        =~= typed_models(body@));
}

} // verus!
