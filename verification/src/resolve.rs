//! Overload resolution: which of the functions declared under a name a
//! call refers to.

use crate::decls::{overload_models, overloads, DeclTable, FuncRef, Overload};
use crate::error::CompileError;
use crate::subtype::{subtype_check, subtype_of, widening_cost};
use crate::types::{clone_types, lemma_tuple_model, models, Ty, TyName};
use vstd::prelude::*;

verus! {

/// The parameter types of a signature; `None` where `sig` is no signature.
pub open spec fn signature_params(sig: Ty) -> Option<Seq<Ty>> {
    match sig {
        Ty::Arrow(params, _) => match *params {
            Ty::Tuple(items) => Some(items),
            _ => None,
        },
        _ => None,
    }
}

/// The return type of a signature; `Unit` where `sig` is no signature.
pub open spec fn signature_ret(sig: Ty) -> Ty {
    match sig {
        Ty::Arrow(_, ret) => *ret,
        _ => Ty::Unit,
    }
}

/// A parameter list accepts arguments of the given types: there are as
/// many of one as of the other, and each argument's type is a subtype of
/// its parameter's.
pub open spec fn accepts(params: Seq<Ty>, args: Seq<Ty>) -> bool {
    &&& params.len() == args.len()
    &&& forall|i: int| 0 <= i < args.len() ==> subtype_of(#[trigger] args[i], params[i])
}

/// A function of signature `sig` can be called with the arguments.
pub open spec fn viable(sig: Ty, args: Seq<Ty>) -> bool {
    signature_params(sig) matches Some(params) && accepts(params, args)
}

/// The number of widening steps that each argument needs, by position.
pub open spec fn cost_vector(params: Seq<Ty>, args: Seq<Ty>) -> Seq<nat> {
    Seq::new(
        args.len(),
        |i: int|
            match widening_cost(args[i], params[i]) {
                Some(cost) => cost,
                None => 0,
            },
    )
}

/// The cost vector of a call of a function of signature `sig`.
pub open spec fn overload_cost(sig: Ty, args: Seq<Ty>) -> Seq<nat> {
    match signature_params(sig) {
        Some(params) => cost_vector(params, args),
        None => Seq::empty(),
    }
}

/// `a` and `b` agree before position `at`, where `a` is the smaller.
pub open spec fn decided_at(a: Seq<nat>, b: Seq<nat>, at: int) -> bool {
    &&& 0 <= at < a.len()
    &&& at < b.len()
    &&& a[at] < b[at]
    &&& forall|j: int| 0 <= j < at ==> a[j] == b[j]
}

/// `a` comes before `b` in the lexicographic order: at the first position
/// where they differ, `a` is the smaller.
pub open spec fn lex_less(a: Seq<nat>, b: Seq<nat>) -> bool {
    exists|at: int| decided_at(a, b, at)
}

/// `a` comes before `b` in the order of vectors of any length: it comes
/// before `b` position by position, or `b` goes on where `a` ends.
pub open spec fn vector_less(a: Seq<nat>, b: Seq<nat>) -> bool {
    lex_less(a, b) || (a.len() < b.len() && b.take(a.len() as int) == a)
}

/// The candidate at position `choice` is the one a call selects: it can be
/// called with the arguments, no candidate that can has a smaller cost
/// vector, and none declared before it has the same one.
pub open spec fn selected(candidates: Seq<Overload>, args: Seq<Ty>, choice: int) -> bool {
    &&& 0 <= choice < candidates.len()
    &&& viable(candidates[choice].1, args)
    &&& forall|j: int|
        0 <= j < candidates.len() && viable((#[trigger] candidates[j]).1, args) ==> {
            &&& !lex_less(
                overload_cost(candidates[j].1, args),
                overload_cost(candidates[choice].1, args),
            )
            &&& j < choice ==> overload_cost(candidates[j].1, args) != overload_cost(
                candidates[choice].1,
                args,
            )
        }
}

/// The position of the candidate that a call with the given arguments
/// selects; `None` where no candidate can be called with them.
pub open spec fn resolution(candidates: Seq<Overload>, args: Seq<Ty>) -> Option<int> {
    if exists|choice: int| selected(candidates, args, choice) {
        Some(choose|choice: int| selected(candidates, args, choice))
    } else {
        None
    }
}

/// The costs as natural numbers.
pub open spec fn as_nats(costs: Seq<u32>) -> Seq<nat> {
    Seq::new(costs.len(), |i: int| costs[i] as nat)
}

/// The lexicographic order is transitive.
pub proof fn lemma_lex_less_transitive(a: Seq<nat>, b: Seq<nat>, c: Seq<nat>)
    requires
        lex_less(a, b),
        lex_less(b, c),
    ensures
        lex_less(a, c),
{
    let first = choose|at: int| decided_at(a, b, at);
    let second = choose|at: int| decided_at(b, c, at);
    if first <= second {
        assert(decided_at(a, c, first));
    } else {
        assert(decided_at(a, c, second));
    }
}

proof fn lemma_first_difference(a: Seq<nat>, b: Seq<nat>, from: int)
    requires
        a.len() == b.len(),
        0 <= from <= a.len(),
        forall|j: int| 0 <= j < from ==> a[j] == b[j],
        a != b,
    ensures
        lex_less(a, b) || lex_less(b, a),
    decreases a.len() - from,
{
    if from == a.len() {
        assert(a =~= b);
    } else if a[from] < b[from] {
        assert(decided_at(a, b, from));
    } else if b[from] < a[from] {
        assert(decided_at(b, a, from));
    } else {
        lemma_first_difference(a, b, from + 1);
    }
}

/// Of two different vectors of one length, one comes before the other.
pub proof fn lemma_lex_less_total(a: Seq<nat>, b: Seq<nat>)
    requires
        a.len() == b.len(),
        a != b,
    ensures
        lex_less(a, b) || lex_less(b, a),
{
    lemma_first_difference(a, b, 0);
}

/// A call selects at most one candidate: which one does not depend on how
/// the candidates are searched.
pub proof fn law_selection_is_unique(
    candidates: Seq<Overload>,
    args: Seq<Ty>,
    first: int,
    second: int,
)
    requires
        selected(candidates, args, first),
        selected(candidates, args, second),
    ensures
        first == second,
{
    if first != second {
        let a = overload_cost(candidates[first].1, args);
        let b = overload_cost(candidates[second].1, args);
        assert(viable(candidates[first].1, args));
        assert(viable(candidates[second].1, args));
        assert(a.len() == b.len());
        assert(a != b);
        lemma_lex_less_total(a, b);
    }
}

/// A call selects a candidate exactly when some candidate can be called
/// with the arguments.
pub proof fn law_selection_exists_iff_viable(candidates: Seq<Overload>, args: Seq<Ty>)
    ensures
        resolution(candidates, args) is Some <==> exists|j: int|
            0 <= j < candidates.len() && viable((#[trigger] candidates[j]).1, args),
        resolution(candidates, args) matches Some(choice) ==> selected(candidates, args, choice),
{
    if exists|j: int| 0 <= j < candidates.len() && viable((#[trigger] candidates[j]).1, args) {
        lemma_best_of_prefix(candidates, args, candidates.len() as int);
        let best = choose|choice: int|
            selected_among(candidates, args, candidates.len() as int, choice);
        assert(candidates.take(candidates.len() as int) =~= candidates);
        assert(selected(candidates, args, best));
    }
    if resolution(candidates, args) is Some {
        let choice = choose|choice: int| selected(candidates, args, choice);
        assert(viable(candidates[choice].1, args));
    }
}

/// A candidate whose parameter types are exactly the argument types is
/// selected, unless one declared before it has the same parameter types:
/// an exact match beats every widening.
pub proof fn law_exact_match_is_selected(candidates: Seq<Overload>, args: Seq<Ty>, exact: int)
    requires
        0 <= exact < candidates.len(),
        signature_params(candidates[exact].1) == Some(args),
        forall|j: int|
            0 <= j < exact ==> signature_params((#[trigger] candidates[j]).1) != Some(args),
    ensures
        resolution(candidates, args) == Some(exact),
{
    let zeros = overload_cost(candidates[exact].1, args);
    assert(viable(candidates[exact].1, args));
    assert forall|j: int|
        0 <= j < candidates.len() && viable((#[trigger] candidates[j]).1, args) implies {
        &&& !lex_less(overload_cost(candidates[j].1, args), zeros)
        &&& j < exact ==> overload_cost(candidates[j].1, args) != zeros
    } by {
        let cost = overload_cost(candidates[j].1, args);
        let params = signature_params(candidates[j].1)->0;
        if j < exact && cost == zeros {
            assert forall|k: int| 0 <= k < args.len() implies params[k] == args[k] by {
                assert(cost[k] == zeros[k]);
                assert(subtype_of(args[k], params[k]));
            }
            assert(params =~= args);
        }
    }
    assert(selected(candidates, args, exact));
    law_selection_is_unique(
        candidates,
        args,
        exact,
        choose|choice: int| selected(candidates, args, choice),
    );
}

/// `choice` is what a call selects among the first `upto` candidates.
spec fn selected_among(candidates: Seq<Overload>, args: Seq<Ty>, upto: int, choice: int) -> bool {
    selected(candidates.take(upto), args, choice)
}

proof fn lemma_best_of_prefix(candidates: Seq<Overload>, args: Seq<Ty>, upto: int)
    requires
        0 <= upto <= candidates.len(),
        exists|j: int| 0 <= j < upto && viable((#[trigger] candidates[j]).1, args),
    ensures
        exists|choice: int| selected_among(candidates, args, upto, choice),
    decreases upto,
{
    let last = upto - 1;
    let shorter = candidates.take(last);
    let longer = candidates.take(upto);
    assert(forall|j: int| 0 <= j < last ==> shorter[j] == longer[j]);
    if exists|j: int| 0 <= j < last && viable((#[trigger] candidates[j]).1, args) {
        lemma_best_of_prefix(candidates, args, last);
        let best = choose|choice: int| selected_among(candidates, args, last, choice);
        assert(selected(shorter, args, best));
        let best_cost = overload_cost(shorter[best].1, args);
        let last_cost = overload_cost(candidates[last].1, args);
        if viable(candidates[last].1, args) && lex_less(last_cost, best_cost) {
            assert forall|j: int|
                0 <= j < longer.len() && viable((#[trigger] longer[j]).1, args) implies {
                &&& !lex_less(overload_cost(longer[j].1, args), last_cost)
                &&& j < last ==> overload_cost(longer[j].1, args) != last_cost
            } by {
                if j < last {
                    assert(viable(shorter[j].1, args));
                    if lex_less(overload_cost(longer[j].1, args), last_cost) {
                        lemma_lex_less_transitive(
                            overload_cost(longer[j].1, args),
                            last_cost,
                            best_cost,
                        );
                    }
                }
            }
            assert(selected_among(candidates, args, upto, last));
        } else {
            assert forall|j: int|
                0 <= j < longer.len() && viable((#[trigger] longer[j]).1, args) implies {
                &&& !lex_less(overload_cost(longer[j].1, args), best_cost)
                &&& j < best ==> overload_cost(longer[j].1, args) != best_cost
            } by {
                if j < last {
                    assert(viable(shorter[j].1, args));
                }
            }
            assert(selected_among(candidates, args, upto, best));
        }
    } else {
        assert(viable(candidates[last].1, args));
        assert forall|j: int|
            0 <= j < longer.len() && viable((#[trigger] longer[j]).1, args) implies {
            &&& !lex_less(
                overload_cost(longer[j].1, args),
                overload_cost(longer[last].1, args),
            )
            &&& j < last ==> overload_cost(longer[j].1, args) != overload_cost(
                longer[last].1,
                args,
            )
        } by {
            assert(j == last);
        }
        assert(selected_among(candidates, args, upto, last));
    }
    if upto == candidates.len() {
        assert(longer =~= candidates);
    }
}

/// The cost of each argument against its parameter, where the parameter
/// list accepts the arguments. The number of arguments is compared first,
/// their types after.
pub fn arg_costs(params: &Vec<TyName>, args: &Vec<TyName>) -> (costs: Option<Vec<u32>>)
    ensures
        costs is Some <==> accepts(models(params@), models(args@)),
        costs matches Some(c) ==> as_nats(c@) == cost_vector(models(params@), models(args@)),
{
    if params.len() != args.len() {
        return None;
    }
    let mut costs: Vec<u32> = Vec::new();
    let mut at: usize = 0;
    while at < args.len()
        invariant
            at <= args.len(),
            params.len() == args.len(),
            costs@.len() == at,
            forall|j: int|
                0 <= j < at ==> widening_cost(
                    (#[trigger] models(args@)[j]),
                    models(params@)[j],
                ) == Some(costs@[j] as nat),
        decreases args.len() - at,
    {
        match subtype_check(&args[at], &params[at]) {
            Some(cost) => {
                costs.push(cost);
            },
            None => {
                assert(!subtype_of(models(args@)[at as int], models(params@)[at as int]));
                return None;
            },
        }
        at += 1;
    }
    assert(as_nats(costs@) =~= cost_vector(models(params@), models(args@)));
    Some(costs)
}

/// Whether cost vector `a` comes before `b`: position by position, and
/// where one ends while they agree, the shorter comes first.
pub fn cost_less(a: &Vec<u32>, b: &Vec<u32>) -> (less: bool)
    ensures
        less == vector_less(as_nats(a@), as_nats(b@)),
        a@.len() == b@.len() ==> less == lex_less(as_nats(a@), as_nats(b@)),
{
    let ghost x = as_nats(a@);
    let ghost y = as_nats(b@);
    let mut at: usize = 0;
    while at < a.len() && at < b.len()
        invariant
            at <= a.len(),
            at <= b.len(),
            x == as_nats(a@),
            y == as_nats(b@),
            forall|j: int| 0 <= j < at ==> x[j] == y[j],
        decreases a.len() - at,
    {
        if a[at] < b[at] {
            assert(decided_at(x, y, at as int));
            return true;
        }
        if a[at] > b[at] {
            assert forall|k: int| !decided_at(x, y, k) by {
                if decided_at(x, y, k) {
                    if k > at {
                        assert(x[at as int] == y[at as int]);
                    }
                }
            }
            assert(!(x.len() < y.len() && y.take(x.len() as int) == x)) by {
                if x.len() < y.len() && y.take(x.len() as int) == x {
                    assert(y.take(x.len() as int)[at as int] == y[at as int]);
                }
            }
            return false;
        }
        at += 1;
    }
    assert forall|k: int| !decided_at(x, y, k) by {}
    if a.len() < b.len() {
        assert(y.take(x.len() as int) =~= x);
        true
    } else {
        false
    }
}

/// The position of the candidate that a call with arguments of the given
/// types selects.
pub fn select_overload(candidates: &Vec<(FuncRef, TyName)>, arg_types: &Vec<TyName>) -> (choice:
    Option<usize>)
    ensures
        choice matches Some(i) ==> resolution(
            overload_models(candidates@),
            models(arg_types@),
        ) == Some(i as int),
        choice is None ==> resolution(overload_models(candidates@), models(arg_types@)) is None,
{
    let ghost list = overload_models(candidates@);
    let ghost args = models(arg_types@);
    let mut best: Option<(usize, Vec<u32>)> = None;
    let mut at: usize = 0;
    while at < candidates.len()
        invariant
            at <= candidates.len(),
            list == overload_models(candidates@),
            args == models(arg_types@),
            best is None ==> forall|j: int| 0 <= j < at ==> !viable((#[trigger] list[j]).1, args),
            best matches Some((b, cost)) ==> {
                &&& b < at
                &&& viable(list[b as int].1, args)
                &&& as_nats(cost@) == overload_cost(list[b as int].1, args)
                &&& forall|j: int|
                    0 <= j < at && viable((#[trigger] list[j]).1, args) ==> {
                        &&& !lex_less(overload_cost(list[j].1, args), as_nats(cost@))
                        &&& j < b ==> overload_cost(list[j].1, args) != as_nats(cost@)
                    }
            },
        decreases candidates.len() - at,
    {
        let ghost sig = list[at as int].1;
        assert(sig == candidates@[at as int].1@);
        let costs: Option<Vec<u32>> = match &candidates[at].1 {
            TyName::Arrow(params, _) => match &**params {
                TyName::Tuple(items) => {
                    proof {
                        lemma_tuple_model(*items);
                    }
                    arg_costs(items, arg_types)
                },
                _ => None,
            },
            _ => None,
        };
        assert(costs is Some <==> viable(sig, args));
        match costs {
            Some(cost) => {
                assert(as_nats(cost@) == overload_cost(sig, args));
                let better = match &best {
                    None => true,
                    Some((_, least)) => cost_less(&cost, least),
                };
                if better {
                    proof {
                        if let Some((b, least)) = best {
                            assert forall|j: int|
                                0 <= j < at && viable((#[trigger] list[j]).1, args) implies {
                                &&& !lex_less(overload_cost(list[j].1, args), as_nats(cost@))
                                &&& overload_cost(list[j].1, args) != as_nats(cost@)
                            } by {
                                if lex_less(overload_cost(list[j].1, args), as_nats(cost@)) {
                                    lemma_lex_less_transitive(
                                        overload_cost(list[j].1, args),
                                        as_nats(cost@),
                                        as_nats(least@),
                                    );
                                }
                            }
                        }
                    }
                    best = Some((at, cost));
                }
            },
            None => {},
        }
        at += 1;
    }
    proof {
        law_selection_exists_iff_viable(list, args);
    }
    match best {
        Some((b, _)) => {
            proof {
                assert(selected(list, args, b as int));
                let chosen = resolution(list, args)->0;
                law_selection_is_unique(list, args, b as int, chosen);
            }
            Some(b)
        },
        None => None,
    }
}

/// The function that a call selects, with its parameter and return types.
#[derive(Debug)]
pub struct Resolved {
    /// The position of the function among those declared under the name.
    pub position: usize,
    pub func: FuncRef,
    pub params: Vec<TyName>,
    pub ret: TyName,
}

/// What `resolve` hands back for the candidate at `choice`.
pub open spec fn resolved_as(found: Resolved, candidates: Seq<Overload>, choice: int) -> bool {
    &&& found.position == choice
    &&& found.func == candidates[choice].0
    &&& signature_params(candidates[choice].1) == Some(models(found.params@))
    &&& found.ret@ == signature_ret(candidates[choice].1)
}

/// Resolves a call of `name` with arguments of the given types against the
/// declarations.
///
/// Of the functions declared under `name`, those whose parameter list
/// accepts the arguments are candidates; the one with the least cost
/// vector in the lexicographic order is selected, and of several with the
/// same vector the one declared first. Where there is no candidate, the
/// call fails with `NoMatchingOverload`; that includes a name that was
/// never declared.
pub fn resolve(name: &String, decls: &DeclTable, arg_types: &Vec<TyName>) -> (found: Result<
    Resolved,
    CompileError,
>)
    ensures
        match resolution(overloads(decls@, name@), models(arg_types@)) {
            Some(choice) => found matches Ok(f) && resolved_as(
                f,
                overloads(decls@, name@),
                choice,
            ),
            None => found matches Err(e) && e == CompileError::NoMatchingOverload,
        },
{
    let candidates = decls.overloads_of(name);
    match select_overload(&candidates, arg_types) {
        Some(choice) => {
            let ghost list = overload_models(candidates@);
            proof {
                law_selection_exists_iff_viable(list, models(arg_types@));
                assert(viable(list[choice as int].1, models(arg_types@)));
                assert(list[choice as int].1 == candidates@[choice as int].1@);
            }
            match &candidates[choice].1 {
                TyName::Arrow(params, ret) => match &**params {
                    TyName::Tuple(items) => {
                        proof {
                            lemma_tuple_model(*items);
                        }
                        Ok(
                            Resolved {
                                position: choice,
                                func: candidates[choice].0.duplicate(),
                                params: clone_types(items),
                                ret: (&**ret).clone(),
                            },
                        )
                    },
                    _ => Err(CompileError::NoMatchingOverload),
                },
                _ => Err(CompileError::NoMatchingOverload),
            }
        },
        None => Err(CompileError::NoMatchingOverload),
    }
}

} // verus!
