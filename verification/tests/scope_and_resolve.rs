use ruda::resolve::{arg_costs, cost_less, select_overload};
use ruda::{resolve, CompileError, DeclTable, FuncRef, IrType, ScopeStack, TyName, Value};

fn prim(name: &str) -> TyName {
    TyName::named(name)
}

fn func(index: usize, ret: IrType) -> FuncRef {
    FuncRef { index, ret }
}

fn sig(params: &[&str], ret: &str) -> TyName {
    TyName::get_arrow(params.iter().map(|p| prim(p)).collect(), prim(ret))
}

#[test]
fn a_name_bound_in_no_frame_is_unresolved() {
    let mut scope = ScopeStack::new();
    assert_eq!(scope.depth(), 0);
    assert_eq!(
        scope.lookup(&String::from("x")),
        Err(CompileError::UnresolvedIdentifier)
    );
    scope.push_frame();
    assert_eq!(
        scope.lookup(&String::from("x")),
        Err(CompileError::UnresolvedIdentifier)
    );
    scope.bind(String::from("y"), Value::Param(0), prim("i32"));
    assert_eq!(
        scope.lookup(&String::from("x")),
        Err(CompileError::UnresolvedIdentifier)
    );
}

#[test]
fn the_innermost_binding_is_found_first() {
    let mut scope = ScopeStack::new();
    scope.push_frame();
    scope.bind(String::from("x"), Value::Param(0), prim("i32"));
    scope.bind(String::from("y"), Value::Param(1), prim("i64"));
    scope.push_frame();
    assert_eq!(scope.depth(), 2);
    assert_eq!(
        scope.lookup(&String::from("x")),
        Ok((Value::Param(0), prim("i32")))
    );
    scope.bind(String::from("x"), Value::Inst(3), prim("f64"));
    assert_eq!(
        scope.lookup(&String::from("x")),
        Ok((Value::Inst(3), prim("f64")))
    );
    assert_eq!(
        scope.lookup(&String::from("y")),
        Ok((Value::Param(1), prim("i64")))
    );
    scope.pop_frame();
    assert_eq!(scope.depth(), 1);
    assert_eq!(
        scope.lookup(&String::from("x")),
        Ok((Value::Param(0), prim("i32")))
    );
}

#[test]
fn a_later_binding_replaces_an_earlier_one_in_the_same_frame() {
    let mut scope = ScopeStack::new();
    scope.push_frame();
    scope.bind(String::from("x"), Value::Param(0), prim("i32"));
    scope.bind(String::from("x"), Value::ConstInt(9), prim("i64"));
    assert_eq!(
        scope.lookup(&String::from("x")),
        Ok((Value::ConstInt(9), prim("i64")))
    );
}

#[test]
fn popping_an_empty_stack_changes_nothing() {
    let mut scope = ScopeStack::new();
    scope.pop_frame();
    assert_eq!(scope.depth(), 0);
}

#[test]
fn cost_vectors_count_the_widenings_by_position() {
    let params = vec![prim("i64"), prim("f64"), prim("i32")];
    let args = vec![prim("i32"), prim("i32"), prim("i32")];
    assert_eq!(arg_costs(&params, &args), Some(vec![1, 2, 0]));
    let args = vec![prim("i32"), prim("bool"), prim("i32")];
    assert_eq!(arg_costs(&params, &args), None);
    let args = vec![prim("i32"), prim("i32")];
    assert_eq!(arg_costs(&params, &args), None);
    assert_eq!(arg_costs(&vec![], &vec![]), Some(vec![]));
}

#[test]
fn cost_vectors_are_ordered_position_by_position() {
    assert!(cost_less(&vec![0], &vec![1]));
    assert!(!cost_less(&vec![1], &vec![0]));
    assert!(!cost_less(&vec![1], &vec![1]));
    assert!(cost_less(&vec![0, 2], &vec![1, 0]));
    assert!(!cost_less(&vec![1, 0], &vec![0, 2]));
    assert!(cost_less(&vec![1, 0, 2], &vec![1, 1, 0]));
    assert!(!cost_less(&vec![], &vec![]));
}

#[test]
fn of_two_vectors_that_agree_the_shorter_comes_first() {
    assert!(cost_less(&vec![], &vec![0]));
    assert!(!cost_less(&vec![0], &vec![]));
    assert!(cost_less(&vec![1, 2], &vec![1, 2, 0]));
    assert!(!cost_less(&vec![1, 2, 0], &vec![1, 2]));
    assert!(cost_less(&vec![0, 9, 9], &vec![1]));
    assert!(!cost_less(&vec![1], &vec![0, 9, 9]));
    let samples: Vec<Vec<u32>> = vec![
        vec![],
        vec![0],
        vec![1],
        vec![0, 0],
        vec![0, 1],
        vec![1, 0],
        vec![2, 0, 1],
        vec![2, 0],
    ];
    for a in samples.iter() {
        for b in samples.iter() {
            assert_eq!(cost_less(a, b), a < b, "{:?} {:?}", a, b);
        }
    }
}

#[test]
fn the_exact_match_beats_the_widening() {
    let mut table = DeclTable::new();
    table.declare(String::from("f"), func(4, IrType::Int(32)), sig(&["i32"], "i32"));
    table.declare(String::from("f"), func(5, IrType::Int(64)), sig(&["i64"], "i64"));
    let found = resolve(&String::from("f"), &table, &vec![prim("i32")]).unwrap();
    assert_eq!(found.position, 0);
    assert_eq!(found.func, func(4, IrType::Int(32)));
    assert_eq!(found.params, vec![prim("i32")]);
    assert_eq!(found.ret, prim("i32"));
}

#[test]
fn the_exact_match_wins_whatever_the_order_of_declaration() {
    let mut table = DeclTable::new();
    table.declare(String::from("f"), func(4, IrType::Int(64)), sig(&["i64"], "i64"));
    table.declare(String::from("f"), func(5, IrType::Int(32)), sig(&["i32"], "i32"));
    let found = resolve(&String::from("f"), &table, &vec![prim("i32")]).unwrap();
    assert_eq!(found.position, 1);
    assert_eq!(found.func, func(5, IrType::Int(32)));
    assert_eq!(found.ret, prim("i32"));
}

#[test]
fn a_wider_argument_selects_the_wider_overload() {
    let mut table = DeclTable::new();
    table.declare(String::from("f"), func(4, IrType::Int(32)), sig(&["i32"], "i32"));
    table.declare(String::from("f"), func(5, IrType::Int(64)), sig(&["i64"], "i64"));
    let found = resolve(&String::from("f"), &table, &vec![prim("i64")]).unwrap();
    assert_eq!(found.position, 1);
    assert_eq!(found.ret, prim("i64"));
}

#[test]
fn the_arity_is_compared_before_the_types() {
    let mut table = DeclTable::new();
    table.declare(String::from("f"), func(4, IrType::Int(32)), sig(&["i32", "i32"], "i32"));
    table.declare(String::from("f"), func(5, IrType::Double), sig(&["f64"], "f64"));
    let found = resolve(&String::from("f"), &table, &vec![prim("i32")]).unwrap();
    assert_eq!(found.position, 1);
    assert_eq!(found.func, func(5, IrType::Double));
    assert_eq!(found.params, vec![prim("f64")]);
}

#[test]
fn cost_vectors_are_compared_position_by_position_not_by_sum() {
    let mut table = DeclTable::new();
    table.declare(
        String::from("g"),
        func(4, IrType::Void),
        sig(&["i64", "i32", "i32"], "i32"),
    );
    table.declare(
        String::from("g"),
        func(5, IrType::Void),
        sig(&["i32", "f64", "f64"], "i32"),
    );
    let args = vec![prim("i32"), prim("i32"), prim("i32")];
    let found = resolve(&String::from("g"), &table, &args).unwrap();
    assert_eq!(found.position, 1);
    assert_eq!(found.func.index, 5);
}

#[test]
fn of_equal_candidates_the_first_declared_is_selected() {
    let mut table = DeclTable::new();
    table.declare(String::from("h"), func(4, IrType::Int(64)), sig(&["i64"], "i64"));
    table.declare(String::from("other"), func(5, IrType::Int(64)), sig(&["i32"], "i64"));
    table.declare(String::from("h"), func(6, IrType::Double), sig(&["f32"], "f64"));
    let found = resolve(&String::from("h"), &table, &vec![prim("i32")]).unwrap();
    assert_eq!(found.position, 0);
    assert_eq!(found.func.index, 4);
}

#[test]
fn a_call_that_no_overload_takes_fails() {
    let mut table = DeclTable::new();
    table.declare(String::from("f"), func(4, IrType::Int(32)), sig(&["i32"], "i32"));
    assert_eq!(
        resolve(&String::from("f"), &table, &vec![prim("f64")]).err(),
        Some(CompileError::NoMatchingOverload)
    );
    assert_eq!(
        resolve(&String::from("f"), &table, &vec![]).err(),
        Some(CompileError::NoMatchingOverload)
    );
    assert_eq!(
        resolve(&String::from("f"), &table, &vec![prim("i32"), prim("i32")]).err(),
        Some(CompileError::NoMatchingOverload)
    );
}

#[test]
fn a_name_that_was_never_declared_has_no_overload() {
    let table = DeclTable::new();
    assert_eq!(table.len(), 0);
    assert_eq!(
        resolve(&String::from("nowhere"), &table, &vec![]).err(),
        Some(CompileError::NoMatchingOverload)
    );
}

#[test]
fn a_declaration_that_is_no_signature_is_never_selected() {
    let mut table = DeclTable::new();
    table.declare(String::from("f"), func(4, IrType::Int(32)), prim("i32"));
    table.declare(
        String::from("f"),
        func(5, IrType::Int(32)),
        TyName::Arrow(Box::new(prim("i32")), Box::new(prim("i32"))),
    );
    assert_eq!(
        resolve(&String::from("f"), &table, &vec![prim("i32")]).err(),
        Some(CompileError::NoMatchingOverload)
    );
    let candidates = table.overloads_of(&String::from("f"));
    assert_eq!(candidates.len(), 2);
    assert_eq!(select_overload(&candidates, &vec![prim("i32")]), None);
}

#[test]
fn overloads_are_listed_in_the_order_of_declaration() {
    let mut table = DeclTable::new();
    table.declare(String::from("a"), func(4, IrType::Void), sig(&[], "i32"));
    table.declare(String::from("b"), func(5, IrType::Void), sig(&[], "i64"));
    table.declare(String::from("a"), func(6, IrType::Void), sig(&["i32"], "f32"));
    assert_eq!(table.len(), 3);
    let list = table.overloads_of(&String::from("a"));
    assert_eq!(list.len(), 2);
    assert_eq!(list[0].0.index, 4);
    assert_eq!(list[1].0.index, 6);
    assert_eq!(list[1].1, sig(&["i32"], "f32"));
    assert_eq!(table.overloads_of(&String::from("c")).len(), 0);
}
