//! Implicit casts: which conversion carries a value of one primitive type
//! to another.

use crate::builder::{Builder, BuilderV, CastOp, InstV, Value};
use crate::ir::IrType;
use crate::subtype::{lemma_lattice_names_distinct, subtype_of, widening_cost};
use crate::types::{name_is, prim, Ty, TyName};
use vstd::prelude::*;

verus! {

/// The single conversion that carries a value of type `src` to type `dst`,
/// with the representation of its result.
///
/// It depends on the two types alone, not on the chain of widening steps
/// that relates them: `i32` goes to `f64` by one conversion.
pub open spec fn direct_cast(src: Ty, dst: Ty) -> Option<(CastOp, IrType)> {
    if src == prim("i32") && dst == prim("i64") {
        Some((CastOp::SignExtend, IrType::Int(64)))
    } else if src == prim("i32") && dst == prim("f32") {
        Some((CastOp::SignedToFloat, IrType::Float))
    } else if src == prim("i32") && dst == prim("f64") {
        Some((CastOp::SignedToFloat, IrType::Double))
    } else if src == prim("i64") && dst == prim("f64") {
        Some((CastOp::SignedToFloat, IrType::Double))
    } else if src == prim("f32") && dst == prim("f64") {
        Some((CastOp::FloatExtend, IrType::Double))
    } else {
        None
    }
}

/// The body after the implicit cast of `value` from `src` to `dst`: one
/// more instruction where the types differ and a conversion exists, and
/// the same body otherwise.
pub open spec fn cast_code(body: BuilderV, src: Ty, dst: Ty, value: Value) -> BuilderV {
    if src == dst {
        body
    } else {
        match direct_cast(src, dst) {
            Some((op, to)) => body.cast(op, value, to),
            None => body,
        }
    }
}

/// The value that stands for `value` after its implicit cast from `src` to
/// `dst`: the result of the conversion where one is emitted, and `value`
/// itself otherwise.
pub open spec fn cast_value(body: BuilderV, src: Ty, dst: Ty, value: Value) -> Value {
    if src != dst && direct_cast(src, dst) is Some {
        body.next()
    } else {
        value
    }
}

/// The conversion from `src` to `dst`, if there is one.
pub fn select_cast(src: &TyName, dst: &TyName) -> (cast: Option<(CastOp, IrType)>)
    ensures
        cast == direct_cast(src@, dst@),
{
    match (src, dst) {
        (TyName::NameBind(from), TyName::NameBind(to)) => {
            if name_is(from, "i32") && name_is(to, "i64") {
                Some((CastOp::SignExtend, IrType::Int(64)))
            } else if name_is(from, "i32") && name_is(to, "f32") {
                Some((CastOp::SignedToFloat, IrType::Float))
            } else if name_is(from, "i32") && name_is(to, "f64") {
                Some((CastOp::SignedToFloat, IrType::Double))
            } else if name_is(from, "i64") && name_is(to, "f64") {
                Some((CastOp::SignedToFloat, IrType::Double))
            } else if name_is(from, "f32") && name_is(to, "f64") {
                Some((CastOp::FloatExtend, IrType::Double))
            } else {
                None
            }
        },
        _ => None,
    }
}

/// Casts `src_val` implicitly from `src` to `dest`.
///
/// Where the two types are equal, or no conversion leads from one to the
/// other, nothing is emitted and `src_val` is handed back; otherwise one
/// conversion is appended and its result handed back.
pub fn gen_subtype_cast(src: &TyName, dest: &TyName, src_val: Value, builder: &mut Builder) -> (value:
    Value)
    ensures
        final(builder)@ == cast_code(old(builder)@, src@, dest@, src_val),
        value == cast_value(old(builder)@, src@, dest@, src_val),
        final(builder)@.code.len() <= old(builder)@.code.len() + 1,
{
    if src.same(dest) {
        return src_val;
    }
    match select_cast(src, dest) {
        Some((op, to)) => builder.build_cast(op, src_val, to),
        None => src_val,
    }
}

/// Every pair of distinct types related by the lattice has a single
/// conversion, whatever the number of widening steps between them.
pub proof fn law_every_widening_has_a_direct_cast(src: Ty, dst: Ty)
    requires
        subtype_of(src, dst),
        src != dst,
    ensures
        direct_cast(src, dst) is Some,
{
}

/// Only widenings are cast: where a conversion exists, the source is a
/// proper subtype of the target.
pub proof fn law_direct_cast_is_a_widening(src: Ty, dst: Ty)
    requires
        direct_cast(src, dst) is Some,
    ensures
        subtype_of(src, dst),
        src != dst,
{
    lemma_lattice_names_distinct();
}

/// An integer of 32 bits becomes a double by one signed-integer to
/// floating-point conversion, although two widening steps relate the two
/// types.
pub proof fn law_int_to_double_is_one_conversion(body: BuilderV, value: Value)
    ensures
        widening_cost(prim("i32"), prim("f64")) == Some(2nat),
        direct_cast(prim("i32"), prim("f64")) == Some((CastOp::SignedToFloat, IrType::Double)),
        cast_code(body, prim("i32"), prim("f64"), value).code == body.code.push(
            (
                InstV::Cast { kind: CastOp::SignedToFloat, value, to: IrType::Double },
                IrType::Double,
            ),
        ),
{
    lemma_lattice_names_distinct();
}

} // verus!
