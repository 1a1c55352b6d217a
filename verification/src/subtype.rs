//! The numeric coercion lattice: which types widen implicitly to which,
//! and in how many steps.

use crate::types::{name_is, prim, Ty, TyName};
use vstd::prelude::*;

verus! {

/// The number of widening steps that lead from `src` to `dst`.
///
/// Every type reaches itself in no step. Among primitives the single steps
/// are `i32 -> i64`, `i32 -> f32`, `i64 -> f64` and `f32 -> f64`, so that
/// `i32` reaches `f64` in two. No other pair is related.
pub open spec fn widening_cost(src: Ty, dst: Ty) -> Option<nat> {
    if src == dst {
        Some(0)
    } else if src == prim("i32") && dst == prim("i64") {
        Some(1)
    } else if src == prim("i32") && dst == prim("f32") {
        Some(1)
    } else if src == prim("i64") && dst == prim("f64") {
        Some(1)
    } else if src == prim("f32") && dst == prim("f64") {
        Some(1)
    } else if src == prim("i32") && dst == prim("f64") {
        Some(2)
    } else {
        None
    }
}

/// `src` may stand where `dst` is expected.
pub open spec fn subtype_of(src: Ty, dst: Ty) -> bool {
    widening_cost(src, dst) is Some
}

/// The longest chain of widening steps that starts at `t`.
pub open spec fn lattice_height(t: Ty) -> nat {
    if t == prim("i32") {
        2
    } else if t == prim("i64") || t == prim("f32") {
        1
    } else {
        0
    }
}

/// The spellings of the primitives of the lattice differ from one another.
pub proof fn lemma_lattice_names_distinct()
    ensures
        prim("i32") != prim("i64"),
        prim("i32") != prim("f32"),
        prim("i32") != prim("f64"),
        prim("i64") != prim("f32"),
        prim("i64") != prim("f64"),
        prim("f32") != prim("f64"),
{
    reveal_strlit("i32");
    reveal_strlit("i64");
    reveal_strlit("f32");
    reveal_strlit("f64");
    assert("i32"@[1] != "i64"@[1]);
    assert("i32"@[0] != "f32"@[0]);
    assert("i32"@[0] != "f64"@[0]);
    assert("i64"@[0] != "f32"@[0]);
    assert("i64"@[0] != "f64"@[0]);
    assert("f32"@[1] != "f64"@[1]);
}

/// Searches the lattice for a chain of widening steps from `t` to `s`,
/// trying the integer branch before the floating-point one, and counts the
/// steps of the chain found.
pub fn subtype_check(t: &TyName, s: &TyName) -> (cost: Option<u32>)
    ensures
        cost is Some <==> subtype_of(t@, s@),
        cost matches Some(c) ==> widening_cost(t@, s@) == Some(c as nat),
    decreases lattice_height(t@),
{
    proof {
        lemma_lattice_names_distinct();
    }
    if s.same(t) {
        return Some(0);
    }
    match (t, s) {
        (TyName::NameBind(src), TyName::NameBind(_)) => {
            if name_is(src, "i32") {
                let wider = TyName::named("i64");
                match subtype_check(&wider, s) {
                    Some(c) => Some(c + 1),
                    None => {
                        let single = TyName::named("f32");
                        match subtype_check(&single, s) {
                            Some(c) => Some(c + 1),
                            None => None,
                        }
                    },
                }
            } else if name_is(src, "f32") || name_is(src, "i64") {
                let double = TyName::named("f64");
                match subtype_check(&double, s) {
                    Some(c) => Some(c + 1),
                    None => None,
                }
            } else {
                None
            }
        },
        _ => None,
    }
}

/// Whether `source` is a subtype of `target`, with the number of widening
/// steps between them; the number is 0 where it is not.
pub fn is_subtype(source: &TyName, target: &TyName) -> (answer: (bool, u32))
    ensures
        answer.0 == subtype_of(source@, target@),
        answer.0 ==> widening_cost(source@, target@) == Some(answer.1 as nat),
        !answer.0 ==> answer.1 == 0,
        source@ == target@ ==> answer == (true, 0u32),
{
    match subtype_check(source, target) {
        Some(cost) => (true, cost),
        None => (false, 0),
    }
}

/// Every type is a subtype of itself, at no cost.
pub proof fn law_subtype_reflexive(t: Ty)
    ensures
        subtype_of(t, t),
        widening_cost(t, t) == Some(0nat),
{
}

/// Two types that are subtypes of each other are the same type: the
/// lattice has no cycle.
pub proof fn law_subtype_antisymmetric(a: Ty, b: Ty)
    requires
        subtype_of(a, b),
        subtype_of(b, a),
    ensures
        a == b,
{
    lemma_lattice_names_distinct();
}

/// A subtype of a subtype is a subtype, and the chain through the middle
/// type is no shorter than the direct one.
pub proof fn law_subtype_transitive(a: Ty, b: Ty, c: Ty)
    requires
        subtype_of(a, b),
        subtype_of(b, c),
    ensures
        subtype_of(a, c),
        widening_cost(a, c)->0 <= widening_cost(a, b)->0 + widening_cost(b, c)->0,
{
    lemma_lattice_names_distinct();
}

/// Only primitives widen: a type that is no primitive name is a subtype of
/// itself alone, and nothing else is a subtype of it.
pub proof fn law_compound_types_do_not_widen(a: Ty, b: Ty)
    requires
        !(a is Name) || !(b is Name),
    ensures
        subtype_of(a, b) <==> a == b,
{
}

} // verus!
