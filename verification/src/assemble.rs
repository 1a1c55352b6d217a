//! Declaration and definition of functions, and the text of the functions
//! whose bodies are not lowered.

use crate::builder::{Builder, BuilderV, Inst, InstV, Value};
use crate::decls::{DeclTable, Declaration, FuncRef};
use crate::error::CompileError;
use crate::expr::{
    lemma_function_model, name_models, typed_models, typed_name_models, BaseExpr, ExprV,
    TypedExpr,
};
use crate::ir::{ir_type_of, map_type, IrType};
use crate::lower::{build_args, lowered_list, LowerState};
use crate::module::{code_models, Function, FunctionV, Module, ModuleV, NVIntrinsics, Param};
use crate::scope::{bind_in, Binding, ScopeStack};
use crate::text::{print_type, type_text};
use crate::types::{name_is, prim, Ty, TyName};
use vstd::prelude::*;

verus! {

/// The parameters of a declaration with the representations of their
/// types, on the host or the device side.
pub open spec fn declared_params(params: Seq<(Seq<char>, Ty)>, device_side: bool) -> Seq<
    (Seq<char>, IrType),
> {
    Seq::new(params.len(), |i: int| (params[i].0, ir_type_of(params[i].1, false, device_side)))
}

/// The function that a declaration of the given name, parameters and
/// return type adds to the module.
pub open spec fn declaration_of(
    ident: Seq<char>,
    params: Seq<(Seq<char>, Ty)>,
    ret: Ty,
    device_side: bool,
) -> FunctionV {
    FunctionV {
        name: ident,
        params: declared_params(params, device_side),
        ret: ir_type_of(ret, false, device_side),
        kernel: device_side,
        body: None,
    }
}

/// The function that a node declares, if it is one of the three kinds of
/// function: one with a body, which is a kernel where it is marked
/// parallel, one whose body is given as text, or one that is defined
/// elsewhere. The types of a kernel are represented on the device side,
/// those of the others on the host side.
pub open spec fn declared(decl: ExprV) -> Option<FunctionV> {
    match decl {
        ExprV::FuncDecl { ident, is_par, params, ret, .. } => Some(
            declaration_of(ident, params, ret, is_par),
        ),
        ExprV::IntrinsicsFuncDecl(ident, params, ret, _) => Some(
            declaration_of(ident, params, ret, false),
        ),
        ExprV::FuncVirtualDecl(ident, params, ret) => Some(
            declaration_of(ident, params, ret, false),
        ),
        _ => None,
    }
}

/// Names the parameters of `function` as `params` names them, position by
/// position; parameters beyond those that `params` names keep their names.
pub fn llvm_set_param_name(params: &Vec<(String, TyName)>, function: &mut Function)
    requires
        params@.len() <= old(function)@.params.len(),
    ensures
        final(function)@ == (FunctionV {
            params: Seq::new(
                old(function)@.params.len(),
                |i: int|
                    if i < params@.len() {
                        (params@[i].0@, old(function)@.params[i].1)
                    } else {
                        old(function)@.params[i]
                    },
            ),
            ..old(function)@
        }),
{
    let mut at: usize = 0;
    while at < params.len()
        invariant
            at <= params.len(),
            params@.len() <= function.params@.len(),
            function.params@.len() == old(function).params@.len(),
            function.name == old(function).name,
            function.ret == old(function).ret,
            function.kernel == old(function).kernel,
            function.body == old(function).body,
            forall|i: int| 0 <= i < at ==> function.params@[i].name@ == params@[i].0@,
            forall|i: int|
                at <= i < function.params@.len() ==> function.params@[i].name@ == old(
                    function,
                ).params@[i].name@,
            forall|i: int|
                0 <= i < function.params@.len() ==> function.params@[i].ty == old(
                    function,
                ).params@[i].ty,
        decreases params.len() - at,
    {
        function.params[at].name = params[at].0.clone();
        at += 1;
    }
    assert(function@.params =~= Seq::new(
        old(function)@.params.len(),
        |i: int|
            if i < params@.len() {
                (params@[i].0@, old(function)@.params[i].1)
            } else {
                old(function)@.params[i]
            },
    ));
}

/// A function without a body that takes parameters of the types of
/// `params`, not yet named, and returns `ret`.
fn unnamed_declaration(
    ident: &String,
    params: &Vec<(String, TyName)>,
    ret: &TyName,
    device_side: bool,
) -> (function: Function)
    ensures
        function@ == (FunctionV {
            params: Seq::new(
                params@.len(),
                |i: int| (Seq::<char>::empty(), ir_type_of(params@[i].1@, false, device_side)),
            ),
            ..declaration_of(ident@, typed_name_models(params@), ret@, device_side)
        }),
{
    let mut types: Vec<Param> = Vec::new();
    let mut at: usize = 0;
    while at < params.len()
        invariant
            at <= params.len(),
            types@.len() == at,
            forall|i: int|
                0 <= i < at ==> types@[i].name@ == Seq::<char>::empty() && types@[i].ty
                    == ir_type_of(params@[i].1@, false, device_side),
        decreases params.len() - at,
    {
        types.push(Param { name: String::new(), ty: map_type(&params[at].1, false, device_side) });
        at += 1;
    }
    let function = Function {
        name: ident.clone(),
        params: types,
        ret: map_type(ret, false, device_side),
        kernel: device_side,
        body: None,
    };
    assert(function@.params =~= Seq::new(
        params@.len(),
        |i: int| (Seq::<char>::empty(), ir_type_of(params@[i].1@, false, device_side)),
    ));
    function
}

/// Declares a function in `module`.
fn declare(
    ident: &String,
    params: &Vec<(String, TyName)>,
    ret: &TyName,
    device_side: bool,
    module: &mut Module,
) -> (declared: (FuncRef, String))
    ensures
        final(module)@ == (ModuleV {
            functions: old(module)@.functions.push(
                declaration_of(ident@, typed_name_models(params@), ret@, device_side),
            ),
            ..old(module)@
        }),
        declared.0 == (FuncRef {
            index: old(module)@.functions.len() as usize,
            ret: ir_type_of(ret@, false, device_side),
        }),
        declared.1@ == ident@,
{
    let mut function = unnamed_declaration(ident, params, ret, device_side);
    llvm_set_param_name(params, &mut function);
    assert(function@.params =~= declared_params(typed_name_models(params@), device_side));
    let func = module.add_function(function);
    (func, ident.clone())
}

/// Declares the function of `decl` in `module` and hands back its handle
/// and its name.
///
/// A node that is none of the three kinds of function is refused with
/// `UnsupportedConstruct`, and the module stays as it is.
pub fn llvm_declare_func(decl: &BaseExpr, module: &mut Module) -> (result: Result<
    (FuncRef, String),
    CompileError,
>)
    ensures
        match declared(decl@) {
            Some(function) => {
                &&& result matches Ok((func, ident))
                &&& final(module)@ == (ModuleV {
                    functions: old(module)@.functions.push(function),
                    ..old(module)@
                })
                &&& func == (FuncRef {
                    index: old(module)@.functions.len() as usize,
                    ret: function.ret,
                })
                &&& ident@ == function.name
            },
            None => {
                &&& result matches Err(e)
                &&& e == CompileError::UnsupportedConstruct
                &&& final(module)@ == old(module)@
            },
        },
{
    match decl {
        BaseExpr::FuncDecl { ident, para_in, is_par, params, ret, body } => {
            proof {
                lemma_function_model(*ident, *para_in, *is_par, *params, *ret, *body);
            }
            Ok(declare(ident, params, ret, *is_par, module))
        },
        BaseExpr::IntrinsicsFuncDecl(ident, params, ret, _) => Ok(
            declare(ident, params, ret, false, module),
        ),
        BaseExpr::FuncVirtualDecl(ident, params, ret) => Ok(
            declare(ident, params, ret, false, module),
        ),
        _ => Err(CompileError::UnsupportedConstruct),
    }
}

/// The parameter list of a function in text: for each parameter the
/// spelling of its type, ` %` and its name, with `, ` between one
/// parameter and the next.
pub open spec fn params_text(params: Seq<(Seq<char>, IrType)>, upto: nat) -> Seq<char>
    decreases upto,
{
    if upto == 0 {
        Seq::empty()
    } else {
        let at = upto - 1;
        let before = params_text(params, at as nat);
        let separated = if at == 0 {
            before
        } else {
            before + ", "@
        };
        separated + type_text(params[at].1) + " %"@ + params[at].0
    }
}

/// The text that defines a function whose body is given as text.
pub open spec fn definition_text(
    ident: Seq<char>,
    params: Seq<(Seq<char>, IrType)>,
    ret: IrType,
    body: Seq<char>,
) -> Seq<char> {
    "define "@ + type_text(ret) + " @"@ + ident + "("@ + params_text(params, params.len())
        + ") {\n"@ + body + "\n}"@
}

/// The text that declares a function that is defined elsewhere.
pub open spec fn declaration_text(
    ident: Seq<char>,
    params: Seq<(Seq<char>, IrType)>,
    ret: IrType,
) -> Seq<char> {
    "declare "@ + type_text(ret) + " @"@ + ident + "("@ + params_text(params, params.len())
        + ")\n\n"@
}

/// Writes the parameter list of a function whose types are represented on
/// the host side.
fn print_params(params: &Vec<(String, TyName)>) -> (text: String)
    ensures
        text@ == params_text(
            declared_params(typed_name_models(params@), false),
            params@.len(),
        ),
{
    let ghost list = declared_params(typed_name_models(params@), false);
    let mut text = String::new();
    let mut at: usize = 0;
    while at < params.len()
        invariant
            at <= params.len(),
            list == declared_params(typed_name_models(params@), false),
            text@ == params_text(list, at as nat),
        decreases params.len() - at,
    {
        if at > 0 {
            text.append(", ");
        }
        text.append(print_type(&map_type(&params[at].1, false, false)).as_str());
        text.append(" %");
        text.append(params[at].0.as_str());
        at += 1;
    }
    text
}

/// Writes the definition of a function whose body is given as text: the
/// word `define`, the return type, the name behind `@`, the parameter list
/// in round brackets and the body in braces, on lines of its own.
pub fn llvm_embedded_ir(
    ident: &String,
    params: &Vec<(String, TyName)>,
    ret_type: &TyName,
    body: &String,
) -> (text: String)
    ensures
        text@ == definition_text(
            ident@,
            declared_params(typed_name_models(params@), false),
            ir_type_of(ret_type@, false, false),
            body@,
        ),
{
    let mut text = String::from_str("define ");
    text.append(print_type(&map_type(ret_type, false, false)).as_str());
    text.append(" @");
    text.append(ident.as_str());
    text.append("(");
    text.append(print_params(params).as_str());
    text.append(") {\n");
    text.append(body.as_str());
    text.append("\n}");
    text
}

/// Writes the declaration of a function that is defined elsewhere: the
/// word `declare`, the return type, the name behind `@`, the parameter
/// list in round brackets and an empty line.
pub fn llvm_embedded_kernel_decl(
    ident: &String,
    params: &Vec<(String, TyName)>,
    ret_type: &TyName,
) -> (text: String)
    ensures
        text@ == declaration_text(
            ident@,
            declared_params(typed_name_models(params@), false),
            ir_type_of(ret_type@, false, false),
        ),
{
    let mut text = String::from_str("declare ");
    text.append(print_type(&map_type(ret_type, false, false)).as_str());
    text.append(" @");
    text.append(ident.as_str());
    text.append("(");
    text.append(print_params(params).as_str());
    text.append(")\n\n");
    text
}

/// The thread-position query for the component of the thread index at
/// `position`: x, y and z for the first three, and x for any further one.
pub open spec fn thread_query(nv: NVIntrinsics, position: nat) -> FuncRef {
    if position == 1 {
        nv.thread_y
    } else if position == 2 {
        nv.thread_z
    } else {
        nv.thread_x
    }
}

/// The scope after the first `upto` parameters are bound, each to the
/// parameter value at its position and to its declared type.
pub open spec fn params_bound(
    params: Seq<(Seq<char>, Ty)>,
    upto: nat,
    scope: Seq<Map<Seq<char>, Binding>>,
) -> Seq<Map<Seq<char>, Binding>>
    decreases upto,
{
    if upto == 0 {
        scope
    } else {
        let at = (upto - 1) as nat;
        bind_in(
            params_bound(params, at, scope),
            params[at as int].0,
            (Value::Param(at as usize), params[at as int].1),
        )
    }
}

/// The state after the first `upto` components of the thread index are
/// bound: for each name but `_`, the query for its position is called and
/// the name bound to the result, as a 64-bit integer.
pub open spec fn threads_bound(
    para_in: Seq<Seq<char>>,
    upto: nat,
    nv: NVIntrinsics,
    st: LowerState,
) -> LowerState
    decreases upto,
{
    if upto == 0 {
        st
    } else {
        let at = (upto - 1) as nat;
        let before = threads_bound(para_in, at, nv, st);
        let name = para_in[at as int];
        if name == "_"@ {
            before
        } else {
            let query = thread_query(nv, at);
            LowerState {
                scope: bind_in(before.scope, name, (before.body.next(), prim("i64"))),
                body: before.body.call(query.index, query.ret, Seq::empty(), name),
            }
        }
    }
}

/// The state in which the body of a function is lowered: an outer frame
/// without bindings and the frame of the parameters, in which a kernel's
/// thread-index names are bound after the parameters and so take their
/// place where the names coincide.
pub open spec fn entry_state(
    para_in: Seq<Seq<char>>,
    is_par: bool,
    params: Seq<(Seq<char>, Ty)>,
    nv: NVIntrinsics,
) -> LowerState {
    let entered = LowerState {
        scope: params_bound(params, params.len(), seq![Map::empty(), Map::empty()]),
        body: BuilderV {
            params: Seq::new(params.len(), |i: int| ir_type_of(params[i].1, false, is_par)),
            code: Seq::empty(),
        },
    };
    if is_par {
        threads_bound(para_in, para_in.len(), nv, entered)
    } else {
        entered
    }
}

/// The body of the function that `decl` defines: its statements lowered
/// one after the other from the entry state, against the declared return
/// type. A node that is no function with a body has none.
pub open spec fn definition_of(decl: ExprV, decls: Seq<Declaration>, nv: NVIntrinsics) -> Result<
    Seq<(InstV, IrType)>,
    CompileError,
> {
    match decl {
        ExprV::FuncDecl { para_in, is_par, params, ret, body, .. } => match lowered_list(
            body,
            body.len(),
            decls,
            ret,
            entry_state(para_in, is_par, params, nv),
        ) {
            Ok((after, _, _)) => Ok(after.body.code),
            Err(e) => Err(e),
        },
        _ => Err(CompileError::UnsupportedConstruct),
    }
}

/// Lowers the statements of a body one after the other.
pub fn build_trivial_body(
    decl: &Vec<TypedExpr>,
    module_decl: &DeclTable,
    expected_ret: &TyName,
    builder: &mut Builder,
    val_context: &mut ScopeStack,
) -> (result: Result<(), CompileError>)
    requires
        old(val_context)@.len() > 0,
    ensures
        match lowered_list(
            typed_models(decl@),
            decl@.len(),
            module_decl@,
            expected_ret@,
            LowerState { scope: old(val_context)@, body: old(builder)@ },
        ) {
            Ok((after, _, _)) => {
                &&& result is Ok
                &&& final(val_context)@ == after.scope
                &&& final(builder)@ == after.body
            },
            Err(e) => result matches Err(got) && got == e,
        },
{
    match build_args(decl, module_decl, expected_ret, builder, val_context) {
        Ok(_) => Ok(()),
        Err(e) => Err(e),
    }
}

/// Defines the function of `decl`: binds its parameters, and for a kernel
/// the components of the thread index, and lowers its body. Hands back the
/// instructions of the body.
///
/// A node that is no function with a body is refused with
/// `UnsupportedConstruct`.
pub fn llvm_define_func(decl: &BaseExpr, module_decl: &DeclTable, nv: &NVIntrinsics) -> (result:
    Result<Vec<(Inst, IrType)>, CompileError>)
    ensures
        match definition_of(decl@, module_decl@, *nv) {
            Ok(code) => result matches Ok(body) && code_models(body@) == code,
            Err(e) => result matches Err(got) && got == e,
        },
{
    match decl {
        BaseExpr::FuncDecl { ident, para_in, is_par, params, ret, body } => {
            proof {
                lemma_function_model(*ident, *para_in, *is_par, *params, *ret, *body);
            }
            let mut val_context = ScopeStack::new();
            val_context.push_frame();
            val_context.push_frame();
            assert(val_context@ =~= seq![Map::empty(), Map::empty()]);
            let mut types: Vec<IrType> = Vec::new();
            let mut at: usize = 0;
            while at < params.len()
                invariant
                    at <= params.len(),
                    types@.len() == at,
                    forall|i: int|
                        0 <= i < at ==> types@[i] == ir_type_of(params@[i].1@, false, *is_par),
                    val_context@.len() == 2,
                    val_context@ == params_bound(
                        typed_name_models(params@),
                        at as nat,
                        seq![Map::empty(), Map::empty()],
                    ),
                decreases params.len() - at,
            {
                types.push(map_type(&params[at].1, false, *is_par));
                val_context.bind(params[at].0.clone(), Value::Param(at), params[at].1.clone());
                at += 1;
            }
            let mut builder = Builder::new(types);
            let ghost entered = LowerState { scope: val_context@, body: builder@ };
            assert(builder@.params =~= Seq::new(
                typed_name_models(params@).len(),
                |i: int| ir_type_of(typed_name_models(params@)[i].1, false, *is_par),
            ));
            if *is_par {
                let mut position: usize = 0;
                while position < para_in.len()
                    invariant
                        position <= para_in.len(),
                        val_context@.len() == 2,
                        (LowerState { scope: val_context@, body: builder@ }) == threads_bound(
                            name_models(para_in@),
                            position as nat,
                            *nv,
                            entered,
                        ),
                    decreases para_in.len() - position,
                {
                    if !name_is(&para_in[position], "_") {
                        let query = if position == 1 {
                            &nv.thread_y
                        } else if position == 2 {
                            &nv.thread_z
                        } else {
                            &nv.thread_x
                        };
                        let index = builder.build_call(
                            query.index,
                            query.ret.duplicate(),
                            Vec::new(),
                            para_in[position].clone(),
                        );
                        val_context.bind(para_in[position].clone(), index, TyName::named("i64"));
                    }
                    position += 1;
                }
            }
            match build_trivial_body(body, module_decl, ret, &mut builder, &mut val_context) {
                Ok(()) => Ok(builder.code),
                Err(e) => Err(e),
            }
        },
        _ => Err(CompileError::UnsupportedConstruct),
    }
}

} // verus!
