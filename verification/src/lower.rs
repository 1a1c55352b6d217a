//! Lowering of expressions to instructions.

use crate::builder::{BinOp, Builder, BuilderV, Value};
use crate::cast::{cast_code, cast_value, gen_subtype_cast};
use crate::decls::{overloads, DeclTable, Declaration};
use crate::error::CompileError;
use crate::expr::{lemma_call_model, typed_models, BaseExpr, ExprV, Node, TypedExpr};
use crate::ir::{language_type_of, reverse_type, AddressSpace};
use crate::resolve::{
    law_selection_exists_iff_viable, resolution, resolve, signature_params, signature_ret,
};
use crate::scope::{bind_in, resolve_in, Binding, ScopeStack};
use crate::subtype::{is_subtype, subtype_of};
use crate::types::{models, name_is, prim, Ty, TyName};
use vstd::prelude::*;

verus! {

/// What lowering reads and changes: the scope and the body under
/// construction.
pub struct LowerState {
    pub scope: Seq<Map<Seq<char>, Binding>>,
    pub body: BuilderV,
}

/// The outcome of lowering one expression: the state after it, the value
/// that the expression yields and the type of that value.
pub type Lowered = Result<(LowerState, Value, Ty), CompileError>;

/// The outcome of lowering a list of expressions: the state after them and
/// the values and types that they yield, in order.
pub type LoweredList = Result<(LowerState, Seq<Value>, Seq<Ty>), CompileError>;

/// The outcome of emitting an operation: the body after it, the value that
/// it yields and the type of that value.
pub type Emitted = Result<(BuilderV, Value, Ty), CompileError>;

/// The outcome of an operation that leaves the scope as it is.
pub open spec fn in_scope(scope: Seq<Map<Seq<char>, Binding>>, emitted: Emitted) -> Lowered {
    match emitted {
        Ok((body, value, ty)) => Ok((LowerState { scope, body }, value, ty)),
        Err(e) => Err(e),
    }
}

/// A name that refers to a built-in operation carries the marker `@` in
/// front.
pub open spec fn is_intrinsic(name: Seq<char>) -> bool {
    name.len() > 0 && name[0] == '@'
}

/// The arithmetic operation that a built-in name stands for.
pub open spec fn arithmetic_op(name: Seq<char>) -> Option<BinOp> {
    if name == "@+"@ {
        Some(BinOp::Add)
    } else if name == "@-"@ {
        Some(BinOp::Sub)
    } else if name == "@*"@ {
        Some(BinOp::Mul)
    } else if name == "@/"@ {
        Some(BinOp::ExactDiv)
    } else {
        None
    }
}

/// The first operand is a pointer into read-only memory.
pub open spec fn stores_to_constant(operands: Seq<Value>, body: BuilderV) -> bool {
    operands.len() >= 1 && body.type_of(operands[0]).spec_address_space() == Some(
        AddressSpace::Constant,
    )
}

/// The outcome of a built-in operation on operands that are lowered
/// already.
///
/// `@load` computes the address of the element at the second operand from
/// the pointer in the first and loads through it; the result has the
/// language type of what was loaded. `@store` computes the address in the
/// same way and stores the third operand through it; it fails with
/// `InvalidStore` where the pointer refers to read-only memory, whatever
/// the other operands are. The arithmetic operations combine the first two
/// operands; the result has the language type of the first. An operation
/// with fewer operands than it reads fails with `UnsupportedConstruct`.
/// Any other name yields no value, of type `Unit`.
pub open spec fn intrinsic_lowered(name: Seq<char>, operands: Seq<Value>, body: BuilderV) -> Emitted {
    if name == "@load"@ {
        if operands.len() < 2 {
            Err(CompileError::UnsupportedConstruct)
        } else {
            let addressed = body.element_ptr(operands[0], operands[1]);
            let loaded = addressed.load(body.next());
            Ok((loaded, addressed.next(), language_type_of(loaded.type_of(addressed.next()))))
        }
    } else if name == "@store"@ {
        if stores_to_constant(operands, body) {
            Err(CompileError::InvalidStore)
        } else if operands.len() < 3 {
            Err(CompileError::UnsupportedConstruct)
        } else {
            let addressed = body.element_ptr(operands[0], operands[1]);
            let stored = addressed.store(operands[2], body.next());
            Ok((stored, addressed.next(), Ty::Unit))
        }
    } else {
        match arithmetic_op(name) {
            Some(op) => {
                if operands.len() < 2 {
                    Err(CompileError::UnsupportedConstruct)
                } else {
                    let computed = body.binary(op, operands[0], operands[1]);
                    Ok((computed, body.next(), language_type_of(computed.type_of(body.next()))))
                }
            },
            None => Ok((body, Value::Null, Ty::Unit)),
        }
    }
}

/// The body and the values after the first `upto` arguments are cast from
/// their own types to the parameter types of the called function.
pub open spec fn cast_args(
    body: BuilderV,
    values: Seq<Value>,
    types: Seq<Ty>,
    params: Seq<Ty>,
    upto: nat,
) -> (BuilderV, Seq<Value>)
    decreases upto,
{
    if upto == 0 {
        (body, Seq::empty())
    } else {
        let at = upto - 1;
        let (before, cast) = cast_args(body, values, types, params, at as nat);
        (
            cast_code(before, types[at], params[at], values[at]),
            cast.push(cast_value(before, types[at], params[at], values[at])),
        )
    }
}

/// The outcome of a call of a declared function with arguments that are
/// lowered already: the call is resolved against the declarations, each
/// argument is cast to the type of its parameter, and the call is
/// emitted. The result has the declared return type.
pub open spec fn call_lowered(
    name: Seq<char>,
    decls: Seq<Declaration>,
    values: Seq<Value>,
    types: Seq<Ty>,
    body: BuilderV,
) -> Emitted {
    let candidates = overloads(decls, name);
    match resolution(candidates, types) {
        None => Err(CompileError::NoMatchingOverload),
        Some(choice) => {
            let func = candidates[choice].0;
            let sig = candidates[choice].1;
            let (cast, args) = cast_args(
                body,
                values,
                types,
                signature_params(sig)->0,
                values.len(),
            );
            Ok((cast.call(func.index, func.ret, args, "calltmp"@), cast.next(), signature_ret(sig)))
        },
    }
}

/// The outcome of lowering `expr` in state `st`, inside a function that is
/// declared to return `expected`.
///
/// A literal yields a constant of the 64-bit integer or double-precision
/// type. An identifier yields what it is bound to in the innermost frame
/// that binds it. A binding lowers its initializer, binds the name to the
/// value and the type that come out, and yields them. A return lowers its
/// operand, checks that the operand's type is a subtype of `expected`,
/// casts the operand and emits the return. A call lowers its arguments
/// from left to right and is then a built-in operation or a call of a
/// declared function. Every other node yields no value, of type `Unit`.
pub open spec fn lowered(
    expr: ExprV,
    decls: Seq<Declaration>,
    expected: Ty,
    st: LowerState,
) -> Lowered
    decreases expr, 0nat,
{
    match expr {
        ExprV::ConstantFloat(bits) => Ok((st, Value::ConstReal(bits), prim("f64"))),
        ExprV::ConstantInt(number) => Ok((st, Value::ConstInt(number), prim("i64"))),
        ExprV::Return(operand) => match lowered((*operand).0, decls, expected, st) {
            Err(e) => Err(e),
            Ok((after, value, ty)) => {
                if !subtype_of(ty, expected) {
                    Err(CompileError::TypeMismatchOnReturn)
                } else {
                    let cast = cast_code(after.body, ty, expected, value);
                    let result = cast_value(after.body, ty, expected, value);
                    Ok((LowerState { scope: after.scope, body: cast.ret(result) }, cast.next(), ty))
                }
            },
        },
        ExprV::RetNull => Ok(
            (LowerState { scope: st.scope, body: st.body.ret_void() }, st.body.next(), Ty::Unit),
        ),
        ExprV::LetDecl(name, _, init) => match lowered((*init).0, decls, expected, st) {
            Err(e) => Err(e),
            Ok((after, value, ty)) => Ok(
                (
                    LowerState {
                        scope: bind_in(after.scope, name, (value, ty)),
                        body: after.body,
                    },
                    value,
                    ty,
                ),
            ),
        },
        ExprV::Ident(name) => match resolve_in(st.scope, name) {
            Some((value, ty)) => Ok((st, value, ty)),
            None => Err(CompileError::UnresolvedIdentifier),
        },
        ExprV::FuncCall(name, args) => match lowered_list(args, args.len(), decls, expected, st) {
            Err(e) => Err(e),
            Ok((after, values, types)) => {
                if is_intrinsic(name) {
                    in_scope(after.scope, intrinsic_lowered(name, values, after.body))
                } else {
                    in_scope(after.scope, call_lowered(name, decls, values, types, after.body))
                }
            },
        },
        _ => Ok((st, Value::Null, Ty::Unit)),
    }
}

/// The outcome of lowering the first `upto` expressions of `list`, one
/// after the other, each in the state that the one before left.
pub open spec fn lowered_list(
    list: Seq<Node>,
    upto: nat,
    decls: Seq<Declaration>,
    expected: Ty,
    st: LowerState,
) -> LoweredList
    decreases list, upto,
{
    if upto == 0 || upto > list.len() {
        Ok((st, Seq::empty(), Seq::empty()))
    } else {
        match lowered_list(list, (upto - 1) as nat, decls, expected, st) {
            Err(e) => Err(e),
            Ok((before, values, types)) => match lowered(
                list[upto - 1].0,
                decls,
                expected,
                before,
            ) {
                Err(e) => Err(e),
                Ok((after, value, ty)) => Ok((after, values.push(value), types.push(ty))),
            },
        }
    }
}

/// A store through a pointer into read-only memory fails with
/// `InvalidStore`, whatever the value that is stored, the position that it
/// is stored at and the number of operands.
pub proof fn law_store_to_constant_is_invalid(operands: Seq<Value>, body: BuilderV)
    requires
        stores_to_constant(operands, body),
    ensures
        intrinsic_lowered("@store"@, operands, body) == Err::<(BuilderV, Value, Ty), CompileError>(
            CompileError::InvalidStore,
        ),
{
    reveal_strlit("@load");
    reveal_strlit("@store");
    assert("@load"@.len() != "@store"@.len());
}

/// Lowering an expression leaves the number of frames of the scope as it
/// is, and appends to the body without changing what is there.
pub proof fn law_lowering_extends_the_body(
    expr: ExprV,
    decls: Seq<Declaration>,
    expected: Ty,
    st: LowerState,
)
    requires
        st.scope.len() > 0,
    ensures
        lowered(expr, decls, expected, st) matches Ok((after, _, _)) ==> {
            &&& after.scope.len() == st.scope.len()
            &&& after.body.params == st.body.params
            &&& st.body.code.len() <= after.body.code.len()
            &&& after.body.code.take(st.body.code.len() as int) == st.body.code
        },
    decreases expr, 0nat,
{
    let code = st.body.code;
    assert(code.take(code.len() as int) =~= code);
    match expr {
        ExprV::Return(operand) => {
            law_lowering_extends_the_body((*operand).0, decls, expected, st);
            if let Ok((after, value, ty)) = lowered((*operand).0, decls, expected, st) {
                if subtype_of(ty, expected) {
                    let cast = cast_code(after.body, ty, expected, value);
                    let result = cast_value(after.body, ty, expected, value);
                    assert(cast.ret(result).code.take(code.len() as int) =~= code);
                }
            }
        },
        ExprV::RetNull => {
            assert(st.body.ret_void().code.take(code.len() as int) =~= code);
        },
        ExprV::LetDecl(_, _, init) => {
            law_lowering_extends_the_body((*init).0, decls, expected, st);
        },
        ExprV::FuncCall(name, args) => {
            lemma_list_extends_the_body(args, args.len(), decls, expected, st);
            if let Ok((after, values, types)) = lowered_list(args, args.len(), decls, expected, st) {
                if is_intrinsic(name) {
                    if let Ok((body, _, _)) = intrinsic_lowered(name, values, after.body) {
                        assert(body.code.take(code.len() as int) =~= code);
                    }
                } else {
                    let candidates = overloads(decls, name);
                    if let Some(choice) = resolution(candidates, types) {
                        let params = signature_params(candidates[choice].1)->0;
                        lemma_casts_extend_the_body(
                            after.body,
                            values,
                            types,
                            params,
                            values.len(),
                        );
                        let (cast, cast_values) = cast_args(
                            after.body,
                            values,
                            types,
                            params,
                            values.len(),
                        );
                        let func = candidates[choice].0;
                        assert(cast.call(func.index, func.ret, cast_values, "calltmp"@).code.take(
                            code.len() as int,
                        ) =~= code);
                    }
                }
            }
        },
        _ => {},
    }
}

proof fn lemma_list_extends_the_body(
    list: Seq<Node>,
    upto: nat,
    decls: Seq<Declaration>,
    expected: Ty,
    st: LowerState,
)
    requires
        st.scope.len() > 0,
    ensures
        lowered_list(list, upto, decls, expected, st) matches Ok((after, _, _)) ==> {
            &&& after.scope.len() == st.scope.len()
            &&& after.body.params == st.body.params
            &&& st.body.code.len() <= after.body.code.len()
            &&& after.body.code.take(st.body.code.len() as int) == st.body.code
        },
    decreases list, upto,
{
    let code = st.body.code;
    assert(code.take(code.len() as int) =~= code);
    if !(upto == 0 || upto > list.len()) {
        lemma_list_extends_the_body(list, (upto - 1) as nat, decls, expected, st);
        if let Ok((before, _, _)) = lowered_list(list, (upto - 1) as nat, decls, expected, st) {
            law_lowering_extends_the_body(list[upto - 1].0, decls, expected, before);
            if let Ok((after, _, _)) = lowered(list[upto - 1].0, decls, expected, before) {
                assert(after.body.code.take(code.len() as int) =~= before.body.code.take(
                    code.len() as int,
                ));
            }
        }
    }
}

proof fn lemma_casts_extend_the_body(
    body: BuilderV,
    values: Seq<Value>,
    types: Seq<Ty>,
    params: Seq<Ty>,
    upto: nat,
)
    ensures
        cast_args(body, values, types, params, upto).0.params == body.params,
        body.code.len() <= cast_args(body, values, types, params, upto).0.code.len(),
        cast_args(body, values, types, params, upto).0.code.take(body.code.len() as int)
            == body.code,
    decreases upto,
{
    assert(body.code.take(body.code.len() as int) =~= body.code);
    if upto > 0 {
        lemma_casts_extend_the_body(body, values, types, params, (upto - 1) as nat);
        let before = cast_args(body, values, types, params, (upto - 1) as nat).0;
        let after = cast_args(body, values, types, params, upto).0;
        assert(after.code.take(body.code.len() as int) =~= before.code.take(
            body.code.len() as int,
        ));
    }
}

/// Once an expression of a list fails, the list fails in the same way.
proof fn lemma_list_error_stays(
    list: Seq<Node>,
    failed: nat,
    upto: nat,
    decls: Seq<Declaration>,
    expected: Ty,
    st: LowerState,
)
    requires
        failed <= upto <= list.len(),
        lowered_list(list, failed, decls, expected, st) is Err,
    ensures
        lowered_list(list, upto, decls, expected, st) == lowered_list(
            list,
            failed,
            decls,
            expected,
            st,
        ),
    decreases upto,
{
    if failed < upto {
        lemma_list_error_stays(list, failed, (upto - 1) as nat, decls, expected, st);
    }
}

/// What an operation returned and left behind agrees with its outcome.
pub open spec fn emitted_as(
    result: Result<(Value, TyName), CompileError>,
    body: BuilderV,
    outcome: Emitted,
) -> bool {
    match outcome {
        Ok((after, value, ty)) => result matches Ok((v, t)) && v == value && t@ == ty && body
            == after,
        Err(e) => result matches Err(got) && got == e,
    }
}

/// What lowering returned and left behind agrees with its outcome.
pub open spec fn lowered_as(
    result: Result<(Value, TyName), CompileError>,
    scope: Seq<Map<Seq<char>, Binding>>,
    body: BuilderV,
    outcome: Lowered,
) -> bool {
    match outcome {
        Ok((after, value, ty)) => result matches Ok((v, t)) && v == value && t@ == ty && scope
            == after.scope && body == after.body,
        Err(e) => result matches Err(got) && got == e,
    }
}

/// Whether `name` refers to a built-in operation.
pub fn names_intrinsic(name: &String) -> (marked: bool)
    ensures
        marked == is_intrinsic(name@),
{
    let text = name.as_str();
    text.unicode_len() > 0 && text.get_char(0) == '@'
}

/// The arithmetic operation that a built-in name stands for.
fn arithmetic_named(name: &String) -> (op: Option<BinOp>)
    ensures
        op == arithmetic_op(name@),
{
    if name_is(name, "@+") {
        Some(BinOp::Add)
    } else if name_is(name, "@-") {
        Some(BinOp::Sub)
    } else if name_is(name, "@*") {
        Some(BinOp::Mul)
    } else if name_is(name, "@/") {
        Some(BinOp::ExactDiv)
    } else {
        None
    }
}

/// Emits the built-in operation `id` on operands that are lowered
/// already.
///
/// A store through a pointer into read-only memory fails with
/// `InvalidStore`, whatever is stored and wherever.
pub fn build_intrinsics(id: &String, operands: &Vec<Value>, builder: &mut Builder) -> (result:
    Result<(Value, TyName), CompileError>)
    ensures
        emitted_as(result, final(builder)@, intrinsic_lowered(id@, operands@, old(builder)@)),
        id@ == "@store"@ && stores_to_constant(operands@, old(builder)@) ==> result == Err::<
            (Value, TyName),
            CompileError,
        >(CompileError::InvalidStore),
{
    proof {
        reveal_strlit("@load");
        reveal_strlit("@store");
        assert("@load"@.len() != "@store"@.len());
    }
    if name_is(id, "@load") {
        if operands.len() < 2 {
            return Err(CompileError::UnsupportedConstruct);
        }
        let address = builder.build_element_ptr(operands[0], operands[1]);
        let loaded = builder.build_load(address);
        let ty = reverse_type(&builder.type_of(loaded));
        Ok((loaded, ty))
    } else if name_is(id, "@store") {
        if operands.len() >= 1 {
            match builder.type_of(operands[0]).address_space() {
                Some(AddressSpace::Constant) => {
                    return Err(CompileError::InvalidStore);
                },
                _ => {},
            }
        }
        if operands.len() < 3 {
            return Err(CompileError::UnsupportedConstruct);
        }
        let address = builder.build_element_ptr(operands[0], operands[1]);
        let stored = builder.build_store(operands[2], address);
        Ok((stored, TyName::Unit))
    } else {
        match arithmetic_named(id) {
            Some(op) => {
                if operands.len() < 2 {
                    return Err(CompileError::UnsupportedConstruct);
                }
                let computed = builder.build_binary(op, operands[0], operands[1]);
                let ty = reverse_type(&builder.type_of(computed));
                Ok((computed, ty))
            },
            None => Ok((Value::Null, TyName::Unit)),
        }
    }
}

/// Emits a call of the declared function `name` with arguments that are
/// lowered already.
pub fn build_call(
    name: &String,
    module_decl: &DeclTable,
    values: &Vec<Value>,
    types: &Vec<TyName>,
    builder: &mut Builder,
) -> (result: Result<(Value, TyName), CompileError>)
    requires
        values@.len() == types@.len(),
    ensures
        emitted_as(
            result,
            final(builder)@,
            call_lowered(name@, module_decl@, values@, models(types@), old(builder)@),
        ),
{
    let found = match resolve(name, module_decl, types) {
        Ok(found) => found,
        Err(e) => {
            return Err(e);
        },
    };
    let ghost candidates = overloads(module_decl@, name@);
    let ghost choice = resolution(candidates, models(types@))->0;
    let ghost params = models(found.params@);
    proof {
        law_selection_exists_iff_viable(candidates, models(types@));
        assert(params.len() == values@.len());
    }
    let mut args: Vec<Value> = Vec::new();
    let mut at: usize = 0;
    while at < values.len()
        invariant
            at <= values.len(),
            values@.len() == types@.len(),
            params == models(found.params@),
            params.len() == values@.len(),
            (builder@, args@) == cast_args(
                old(builder)@,
                values@,
                models(types@),
                params,
                at as nat,
            ),
        decreases values.len() - at,
    {
        let value = gen_subtype_cast(&types[at], &found.params[at], values[at], builder);
        args.push(value);
        at += 1;
    }
    let called = builder.build_call(
        found.func.index,
        found.func.ret.duplicate(),
        args,
        String::from_str("calltmp"),
    );
    Ok((called, found.ret))
}

/// Lowers `expr` against the scope `val_context`, inside a function that
/// is declared to return `expected_ret`, and appends what it emits to
/// `builder`.
///
/// On success the scope and the body are as the outcome says, and the
/// scope has as many frames as before. On failure nothing is said of what
/// was emitted or bound until then.
pub fn build_recurse_expr(
    expr: &BaseExpr,
    module_decl: &DeclTable,
    expected_ret: &TyName,
    builder: &mut Builder,
    val_context: &mut ScopeStack,
) -> (result: Result<(Value, TyName), CompileError>)
    requires
        old(val_context)@.len() > 0,
    ensures
        lowered_as(
            result,
            final(val_context)@,
            final(builder)@,
            lowered(
                expr@,
                module_decl@,
                expected_ret@,
                LowerState { scope: old(val_context)@, body: old(builder)@ },
            ),
        ),
        result is Ok ==> final(val_context)@.len() == old(val_context)@.len(),
    decreases expr,
{
    match expr {
        BaseExpr::ConstantFloat(bits) => Ok((Value::ConstReal(*bits), TyName::named("f64"))),
        BaseExpr::ConstantInt(number) => Ok((Value::ConstInt(*number), TyName::named("i64"))),
        BaseExpr::Return(operand) => {
            let inner: &TypedExpr = &**operand;
            let (value, ty) = match build_recurse_expr(
                &inner.0,
                module_decl,
                expected_ret,
                builder,
                val_context,
            ) {
                Ok(lowered) => lowered,
                Err(e) => {
                    return Err(e);
                },
            };
            if !is_subtype(&ty, expected_ret).0 {
                return Err(CompileError::TypeMismatchOnReturn);
            }
            let cast = gen_subtype_cast(&ty, expected_ret, value, builder);
            let returned = builder.build_ret(cast);
            Ok((returned, ty))
        },
        BaseExpr::RetNull => {
            let returned = builder.build_ret_void();
            Ok((returned, TyName::Unit))
        },
        BaseExpr::LetDecl(name, _, init) => {
            let inner: &TypedExpr = &**init;
            let (value, ty) = match build_recurse_expr(
                &inner.0,
                module_decl,
                expected_ret,
                builder,
                val_context,
            ) {
                Ok(lowered) => lowered,
                Err(e) => {
                    return Err(e);
                },
            };
            val_context.bind(name.clone(), value, ty.clone());
            Ok((value, ty))
        },
        BaseExpr::Ident(name) => val_context.lookup(name),
        BaseExpr::FuncCall(name, args) => {
            proof {
                lemma_call_model(*name, *args);
            }
            let (values, types) = match build_args(
                args,
                module_decl,
                expected_ret,
                builder,
                val_context,
            ) {
                Ok(lowered) => lowered,
                Err(e) => {
                    return Err(e);
                },
            };
            if names_intrinsic(name) {
                build_intrinsics(name, &values, builder)
            } else {
                build_call(name, module_decl, &values, &types, builder)
            }
        },
        _ => Ok((Value::Null, TyName::Unit)),
    }
}

/// Lowers the expressions of `list` from left to right, each against the
/// scope and the body that the one before left.
pub fn build_args(
    list: &Vec<TypedExpr>,
    module_decl: &DeclTable,
    expected_ret: &TyName,
    builder: &mut Builder,
    val_context: &mut ScopeStack,
) -> (result: Result<(Vec<Value>, Vec<TyName>), CompileError>)
    requires
        old(val_context)@.len() > 0,
    ensures
        match lowered_list(
            typed_models(list@),
            list@.len(),
            module_decl@,
            expected_ret@,
            LowerState { scope: old(val_context)@, body: old(builder)@ },
        ) {
            Ok((after, values, types)) => {
                &&& result matches Ok((vs, ts))
                &&& vs@ == values
                &&& models(ts@) == types
                &&& vs@.len() == list@.len()
                &&& ts@.len() == list@.len()
                &&& final(val_context)@ == after.scope
                &&& final(builder)@ == after.body
            },
            Err(e) => result matches Err(got) && got == e,
        },
        result is Ok ==> final(val_context)@.len() == old(val_context)@.len(),
    decreases list,
{
    let ghost start = LowerState { scope: old(val_context)@, body: old(builder)@ };
    let mut values: Vec<Value> = Vec::new();
    let mut types: Vec<TyName> = Vec::new();
    let mut at: usize = 0;
    assert(models(types@) =~= Seq::<Ty>::empty());
    while at < list.len()
        invariant
            at <= list.len(),
            val_context@.len() == old(val_context)@.len(),
            val_context@.len() > 0,
            values@.len() == at,
            types@.len() == at,
            start == (LowerState { scope: old(val_context)@, body: old(builder)@ }),
            lowered_list(typed_models(list@), at as nat, module_decl@, expected_ret@, start) == Ok::<
                (LowerState, Seq<Value>, Seq<Ty>),
                CompileError,
            >((LowerState { scope: val_context@, body: builder@ }, values@, models(types@))),
        decreases list.len() - at,
    {
        let ghost before = models(types@);
        match build_recurse_expr(&list[at].0, module_decl, expected_ret, builder, val_context) {
            Ok((value, ty)) => {
                values.push(value);
                types.push(ty);
                assert(models(types@) =~= before.push(ty@));
            },
            Err(e) => {
                proof {
                    lemma_list_error_stays(
                        typed_models(list@),
                        (at + 1) as nat,
                        list@.len(),
                        module_decl@,
                        expected_ret@,
                        start,
                    );
                }
                return Err(e);
            },
        }
        at += 1;
    }
    Ok((values, types))
}

} // verus!
