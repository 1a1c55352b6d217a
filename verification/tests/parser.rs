use ruda::{
    gen_bin_op, parse_number, walk_fun_body, walk_func, walk_pairs, walk_ty, walk_value_expr,
    walk_value_expr_with_climber, walk_value_node, BaseExpr, CompileError, Pair, RudaParser,
    Rule, TyName, TypedExpr,
};

fn node(rule: Rule, text: &str, inner: Vec<Pair>) -> Pair {
    Pair {
        rule,
        text: String::from(text),
        inner,
    }
}

fn leaf(rule: Rule, text: &str) -> Pair {
    node(rule, text, vec![])
}

fn value(text: &str) -> Pair {
    let rule = if text.chars().all(|c| c.is_ascii_digit()) {
        Rule::Number
    } else {
        Rule::Ident
    };
    node(Rule::Value, text, vec![leaf(rule, text)])
}

/// The chain `first op second op third ...` as the grammar nests it: each
/// operation holds its left operand, its operator and the rest of the
/// chain.
fn chain(operands: &[&str], operators: &[&str]) -> Pair {
    if operators.is_empty() {
        return value(operands[0]);
    }
    let rest = chain(&operands[1..], &operators[1..]);
    node(
        Rule::BinOp,
        "",
        vec![
            value(operands[0]),
            leaf(Rule::Other, operators[0]),
            node(Rule::Other, "", vec![rest]),
        ],
    )
}

fn value_expr(inner: Pair) -> Pair {
    node(Rule::ValueExpr, "", vec![inner])
}

fn statement(inner: Pair) -> Pair {
    node(Rule::BaseExpr, "", vec![inner])
}

fn show(expr: &TypedExpr) -> String {
    match &expr.0 {
        BaseExpr::FuncCall(name, args) => {
            let args: Vec<String> = args.iter().map(show).collect();
            format!("{}({})", name, args.join(", "))
        }
        BaseExpr::Ident(name) => name.clone(),
        BaseExpr::ConstantInt(number) => format!("{}", number),
        BaseExpr::Return(value) => format!("return {}", show(value)),
        BaseExpr::RetNull => String::from("return"),
        BaseExpr::LetDecl(name, assignable, value) => {
            format!("let{} {} = {}", if *assignable { " mut" } else { "" }, name, show(value))
        }
        BaseExpr::Assign(name, value) => format!("{} = {}", name, show(value)),
        BaseExpr::Nope => String::from("nope"),
        other => format!("{:?}", other),
    }
}

fn walked(operands: &[&str], operators: &[&str]) -> String {
    let body = vec![chain(operands, operators)];
    show(&walk_value_expr(&body).unwrap())
}

#[test]
fn integer_literals_are_read_in_decimal() {
    assert_eq!(parse_number("0"), Some(0));
    assert_eq!(parse_number("42"), Some(42));
    assert_eq!(parse_number("007"), Some(7));
    assert_eq!(parse_number("-13"), Some(-13));
    assert_eq!(parse_number("+13"), Some(13));
    assert_eq!(parse_number("9223372036854775807"), Some(i64::MAX));
    assert_eq!(parse_number("-9223372036854775808"), Some(i64::MIN));
}

#[test]
fn what_is_no_integer_literal_is_not_read() {
    assert_eq!(parse_number(""), None);
    assert_eq!(parse_number("-"), None);
    assert_eq!(parse_number("+"), None);
    assert_eq!(parse_number("12a"), None);
    assert_eq!(parse_number("a12"), None);
    assert_eq!(parse_number("1 2"), None);
    assert_eq!(parse_number("--1"), None);
    assert_eq!(parse_number("1.5"), None);
    assert_eq!(parse_number("٣"), None);
    assert_eq!(parse_number("9223372036854775808"), None);
    assert_eq!(parse_number("-9223372036854775809"), None);
    assert_eq!(parse_number("99999999999999999999999999"), None);
}

#[test]
fn integer_literals_are_read_as_the_standard_library_reads_them() {
    let samples = [
        "0", "1", "-1", "+0", "-0", "10", "123456789", "9223372036854775807",
        "9223372036854775808", "-9223372036854775808", "-9223372036854775809", "18446744073709551616",
        "", "-", "+", "x", "1x", "+-1", " 1", "1 ", "0x10", "1_000",
    ];
    for text in samples.iter() {
        assert_eq!(parse_number(text), text.parse::<i64>().ok(), "{:?}", text);
    }
}

#[test]
fn type_rules_stand_for_types() {
    assert_eq!(walk_ty(&leaf(Rule::Ident, "i32")), Ok(TyName::named("i32")));
    let array = node(Rule::ArrType, "[i32]", vec![leaf(Rule::Ident, "i32")]);
    assert_eq!(
        walk_ty(&array),
        Ok(TyName::Array(Box::new(TyName::named("i32"))))
    );
    let assignable = node(
        Rule::MutType,
        "mut [i32]",
        vec![node(Rule::ArrType, "[i32]", vec![leaf(Rule::Ident, "i32")])],
    );
    assert_eq!(
        walk_ty(&assignable),
        Ok(TyName::MutBind(Box::new(TyName::Array(Box::new(
            TyName::named("i32")
        )))))
    );
    for rule in [Rule::TypeIdent, Rule::ImmutType, Rule::RetType].iter() {
        let grouped = node(*rule, "f64", vec![leaf(Rule::Ident, "f64")]);
        assert_eq!(walk_ty(&grouped), Ok(TyName::named("f64")));
    }
    assert_eq!(walk_ty(&leaf(Rule::Other, "?")), Ok(TyName::Unit));
    assert_eq!(walk_ty(&leaf(Rule::Number, "1")), Ok(TyName::Unit));
}

#[test]
fn a_type_rule_without_its_part_is_malformed() {
    for rule in [
        Rule::MutType,
        Rule::ArrType,
        Rule::TypeIdent,
        Rule::ImmutType,
        Rule::RetType,
    ]
    .iter()
    {
        assert_eq!(walk_ty(&leaf(*rule, "")), Err(CompileError::MalformedSyntax));
    }
    let nested = node(Rule::ArrType, "", vec![leaf(Rule::MutType, "")]);
    assert_eq!(walk_ty(&nested), Err(CompileError::MalformedSyntax));
}

#[test]
fn values_are_identifiers_and_numbers() {
    let walked = walk_value_node(&vec![leaf(Rule::Ident, "x")]).unwrap();
    assert_eq!(show(&walked), "x");
    assert_eq!(walked.1, TyName::VarBind(String::from("x")));
    let walked = walk_value_node(&vec![leaf(Rule::Number, "12")]).unwrap();
    assert_eq!(show(&walked), "12");
    assert_eq!(walked.1, TyName::named("i64"));
    let walked = walk_value_node(&vec![leaf(Rule::Other, "12")]).unwrap();
    assert_eq!(show(&walked), "nope");
    assert_eq!(walked.1, TyName::Unit);
    assert_eq!(
        walk_value_node(&vec![]).err(),
        Some(CompileError::MalformedSyntax)
    );
    assert_eq!(
        walk_value_node(&vec![leaf(Rule::Number, "99999999999999999999")]).err(),
        Some(CompileError::MalformedSyntax)
    );
}

#[test]
fn a_binary_operation_is_a_call_of_the_built_in_operation() {
    let lhs = (BaseExpr::Ident(String::from("a")), TyName::Unit);
    let rhs = (BaseExpr::ConstantInt(2), TyName::named("i64"));
    let walked = gen_bin_op(&String::from("+"), lhs, rhs);
    assert_eq!(show(&walked), "@+(a, 2)");
    assert_eq!(walked.1, TyName::VarBind(String::from("ret@@+")));
}

#[test]
fn operators_of_one_priority_group_from_the_left() {
    assert_eq!(walked(&["a", "b"], &["+"]), "@+(a, b)");
    assert_eq!(walked(&["1", "2", "3"], &["-", "-"]), "@-(@-(1, 2), 3)");
    assert_eq!(walked(&["a", "b", "c"], &["/", "*"]), "@*(@/(a, b), c)");
    assert_eq!(
        walked(&["a", "b", "c", "d"], &["+", "-", "+"]),
        "@+(@-(@+(a, b), c), d)"
    );
}

#[test]
fn multiplication_binds_more_tightly_than_addition() {
    assert_eq!(walked(&["a", "b", "c"], &["+", "*"]), "@+(a, @*(b, c))");
    assert_eq!(walked(&["a", "b", "c"], &["*", "+"]), "@+(@*(a, b), c)");
    assert_eq!(
        walked(&["a", "b", "c", "d"], &["+", "*", "-"]),
        "@-(@+(a, @*(b, c)), d)"
    );
    assert_eq!(
        walked(&["a", "b", "c", "d", "e"], &["*", "+", "/", "-"]),
        "@-(@+(@*(a, b), @/(c, d)), e)"
    );
    assert_eq!(
        walked(&["a", "b", "c", "d"], &["-", "*", "/"]),
        "@-(a, @/(@*(b, c), d))"
    );
}

#[test]
fn the_climb_leaves_what_binds_too_loosely() {
    let body = vec![chain(&["a", "b", "c"], &["*", "+"])];
    let (walked, rest) = walk_value_expr_with_climber(&body, 2).unwrap();
    assert_eq!(show(&walked), "@*(a, b)");
    let (op, operands) = rest.unwrap();
    assert_eq!(op.text, "+");
    assert_eq!(operands.len(), 1);
    assert_eq!(operands[0].text, "c");

    let (walked, rest) = walk_value_expr_with_climber(&body, 3).unwrap();
    assert_eq!(show(&walked), "a");
    let (op, operands) = rest.unwrap();
    assert_eq!(op.text, "*");
    assert_eq!(operands.len(), 1);
    assert!(matches!(operands[0].rule, Rule::BinOp));

    let (walked, rest) = walk_value_expr_with_climber(&body, 0).unwrap();
    assert_eq!(show(&walked), "@+(@*(a, b), c)");
    assert!(rest.is_none());

    let (walked, rest) = walk_value_expr_with_climber(&body, i32::MIN).unwrap();
    assert_eq!(show(&walked), "@+(@*(a, b), c)");
    assert!(rest.is_none());

    let (walked, rest) = walk_value_expr_with_climber(&body, i32::MAX).unwrap();
    assert_eq!(show(&walked), "a");
    assert_eq!(rest.unwrap().0.text, "*");
}

#[test]
fn an_unknown_operator_is_malformed() {
    let body = vec![chain(&["a", "b"], &["%"])];
    assert_eq!(
        walk_value_expr(&body).err(),
        Some(CompileError::MalformedSyntax)
    );
    let body = vec![chain(&["a", "b", "c"], &["+", "^"])];
    assert_eq!(
        walk_value_expr(&body).err(),
        Some(CompileError::MalformedSyntax)
    );
}

#[test]
fn an_operation_without_its_parts_is_malformed() {
    let short = node(
        Rule::BinOp,
        "",
        vec![value("a"), leaf(Rule::Other, "+")],
    );
    assert_eq!(
        walk_value_expr(&vec![short]).err(),
        Some(CompileError::MalformedSyntax)
    );
    let empty_rest = node(
        Rule::BinOp,
        "",
        vec![value("a"), leaf(Rule::Other, "+"), leaf(Rule::Other, "")],
    );
    assert_eq!(
        walk_value_expr(&vec![empty_rest]).err(),
        Some(CompileError::MalformedSyntax)
    );
    assert_eq!(
        walk_value_expr(&vec![]).err(),
        Some(CompileError::MalformedSyntax)
    );
}

#[test]
fn a_call_takes_its_first_part_as_name_and_the_rest_as_arguments() {
    let call = node(
        Rule::FuncCall,
        "f(a, b + 1)",
        vec![
            leaf(Rule::Ident, "f"),
            value_expr(value("a")),
            value_expr(chain(&["b", "1"], &["+"])),
        ],
    );
    let walked = walk_value_expr(&vec![call]).unwrap();
    assert_eq!(show(&walked), "f(a, @+(b, 1))");
    assert_eq!(walked.1, TyName::VarBind(String::from("ret@f")));
    let bare = node(Rule::FuncCall, "g()", vec![leaf(Rule::Ident, "g")]);
    assert_eq!(show(&walk_value_expr(&vec![bare]).unwrap()), "g()");
    assert_eq!(
        walk_value_expr(&vec![leaf(Rule::FuncCall, "")]).err(),
        Some(CompileError::MalformedSyntax)
    );
}

#[test]
fn what_is_no_expression_is_a_placeholder() {
    let walked = walk_value_expr(&vec![leaf(Rule::Other, "?")]).unwrap();
    assert_eq!(show(&walked), "nope");
    assert_eq!(walked.1, TyName::Unit);
}

#[test]
fn statements_are_returns_bindings_assignments_and_expressions() {
    let body = vec![
        statement(node(
            Rule::LetExpr,
            "",
            vec![leaf(Rule::Ident, "x"), value_expr(value("1"))],
        )),
        statement(node(
            Rule::LetExpr,
            "",
            vec![
                leaf(Rule::MutLet, "mut"),
                leaf(Rule::Ident, "y"),
                value_expr(chain(&["x", "2"], &["*"])),
            ],
        )),
        statement(node(
            Rule::Assignment,
            "",
            vec![leaf(Rule::Ident, "y"), value_expr(value("x"))],
        )),
        statement(node(Rule::ValueExpr, "", vec![value("y")])),
        statement(node(Rule::ReturnExpr, "", vec![value_expr(value("y"))])),
        statement(leaf(Rule::ReturnExpr, "return")),
        statement(leaf(Rule::Other, ";")),
        leaf(Rule::Other, "comment"),
    ];
    let walked = walk_fun_body(&body).unwrap();
    let shown: Vec<String> = walked.iter().map(show).collect();
    assert_eq!(
        shown,
        vec![
            "let x = 1",
            "let mut y = @*(x, 2)",
            "y = x",
            "y",
            "return y",
            "return",
            "nope",
            "nope"
        ]
    );
    assert_eq!(walked[0].1, TyName::Unit);
    assert_eq!(walked[3].1, TyName::VarBind(String::from("y")));
    assert_eq!(walked[4].1, TyName::VarBind(String::from("y")));
    assert_eq!(walked[5].1, TyName::Unit);
}

#[test]
fn a_statement_without_its_parts_is_malformed() {
    let cases = vec![
        leaf(Rule::BaseExpr, ""),
        statement(leaf(Rule::LetExpr, "")),
        statement(node(Rule::LetExpr, "", vec![leaf(Rule::Ident, "x")])),
        statement(node(
            Rule::LetExpr,
            "",
            vec![leaf(Rule::MutLet, "mut"), leaf(Rule::Ident, "x")],
        )),
        statement(node(Rule::Assignment, "", vec![leaf(Rule::Ident, "x")])),
        statement(node(Rule::ValueExpr, "", vec![])),
    ];
    for case in cases.into_iter() {
        assert_eq!(
            walk_fun_body(&vec![case]).err(),
            Some(CompileError::MalformedSyntax)
        );
    }
}

fn param(name: &str, ty: &str) -> Pair {
    node(
        Rule::Other,
        "",
        vec![leaf(Rule::Ident, name), leaf(Rule::Ident, ty)],
    )
}

fn add_function() -> Pair {
    let head = node(
        Rule::Other,
        "",
        vec![
            leaf(Rule::Ident, "add"),
            node(Rule::Other, "", vec![param("a", "i32"), param("b", "i32")]),
            node(Rule::RetType, "-> i32", vec![leaf(Rule::Ident, "i32")]),
        ],
    );
    let body = node(
        Rule::Other,
        "",
        vec![statement(node(
            Rule::ReturnExpr,
            "",
            vec![value_expr(chain(&["a", "b"], &["+"]))],
        ))],
    );
    node(Rule::Other, "", vec![head, body])
}

#[test]
fn a_function_has_a_name_parameters_a_return_type_and_a_body() {
    let walked = walk_func(&add_function()).unwrap();
    assert_eq!(
        walked.1,
        TyName::get_arrow(
            vec![TyName::named("i32"), TyName::named("i32")],
            TyName::named("i32")
        )
    );
    match &walked.0 {
        BaseExpr::FuncDecl {
            ident,
            para_in,
            is_par,
            params,
            ret,
            body,
        } => {
            assert_eq!(ident, "add");
            assert!(para_in.is_empty());
            assert!(!*is_par);
            assert_eq!(
                params,
                &vec![
                    (String::from("a"), TyName::named("i32")),
                    (String::from("b"), TyName::named("i32"))
                ]
            );
            assert_eq!(*ret, TyName::named("i32"));
            let shown: Vec<String> = body.iter().map(show).collect();
            assert_eq!(shown, vec!["return @+(a, b)"]);
        }
        other => panic!("not a function: {:?}", other),
    }
}

#[test]
fn a_function_without_a_return_type_returns_unit() {
    let head = node(
        Rule::Other,
        "",
        vec![leaf(Rule::Ident, "run"), node(Rule::Other, "", vec![])],
    );
    let func = node(Rule::Other, "", vec![head, node(Rule::Other, "", vec![])]);
    let walked = walk_func(&func).unwrap();
    assert_eq!(walked.1, TyName::get_arrow(vec![], TyName::Unit));
    match &walked.0 {
        BaseExpr::FuncDecl {
            ident, ret, body, ..
        } => {
            assert_eq!(ident, "run");
            assert_eq!(*ret, TyName::Unit);
            assert!(body.is_empty());
        }
        other => panic!("not a function: {:?}", other),
    }
}

#[test]
fn a_kernel_names_the_components_of_its_thread_index() {
    let index = node(
        Rule::ParfunDecl,
        "",
        vec![node(
            Rule::Other,
            "",
            vec![leaf(Rule::Ident, "i"), leaf(Rule::Ident, "_"), leaf(Rule::Ident, "k")],
        )],
    );
    let head = node(
        Rule::Other,
        "",
        vec![
            index,
            leaf(Rule::Ident, "fill"),
            node(
                Rule::Other,
                "",
                vec![node(
                    Rule::Other,
                    "",
                    vec![
                        leaf(Rule::Ident, "out"),
                        node(
                            Rule::MutType,
                            "",
                            vec![node(Rule::ArrType, "", vec![leaf(Rule::Ident, "f32")])],
                        ),
                    ],
                )],
            ),
        ],
    );
    let func = node(Rule::Other, "", vec![head, node(Rule::Other, "", vec![])]);
    let walked = walk_func(&func).unwrap();
    match &walked.0 {
        BaseExpr::FuncDecl {
            ident,
            para_in,
            is_par,
            params,
            ret,
            ..
        } => {
            assert_eq!(ident, "fill");
            assert_eq!(para_in, &vec!["i", "_", "k"]);
            assert!(*is_par);
            assert_eq!(params.len(), 1);
            assert_eq!(params[0].0, "out");
            assert_eq!(
                params[0].1,
                TyName::MutBind(Box::new(TyName::Array(Box::new(TyName::named("f32")))))
            );
            assert_eq!(*ret, TyName::Unit);
        }
        other => panic!("not a function: {:?}", other),
    }
}

#[test]
fn a_function_without_its_parts_is_malformed() {
    let cases = vec![
        leaf(Rule::Other, ""),
        node(Rule::Other, "", vec![leaf(Rule::Other, "")]),
        node(
            Rule::Other,
            "",
            vec![leaf(Rule::Other, ""), leaf(Rule::Other, "")],
        ),
        node(
            Rule::Other,
            "",
            vec![
                node(Rule::Other, "", vec![leaf(Rule::Ident, "f")]),
                leaf(Rule::Other, ""),
            ],
        ),
        node(
            Rule::Other,
            "",
            vec![
                node(
                    Rule::Other,
                    "",
                    vec![leaf(Rule::ParfunDecl, ""), leaf(Rule::Ident, "f"), leaf(Rule::Other, "")],
                ),
                leaf(Rule::Other, ""),
            ],
        ),
        node(
            Rule::Other,
            "",
            vec![
                node(
                    Rule::Other,
                    "",
                    vec![
                        leaf(Rule::Ident, "f"),
                        node(
                            Rule::Other,
                            "",
                            vec![node(Rule::Other, "", vec![leaf(Rule::Ident, "a")])],
                        ),
                    ],
                ),
                leaf(Rule::Other, ""),
            ],
        ),
    ];
    for case in cases.into_iter() {
        assert_eq!(walk_func(&case).err(), Some(CompileError::MalformedSyntax));
    }
}

#[test]
fn every_node_of_a_list_is_converted() {
    let walked = walk_pairs(&vec![add_function(), add_function()]).unwrap();
    assert_eq!(walked.len(), 2);
    assert_eq!(walk_pairs(&vec![]).unwrap().len(), 0);
    assert_eq!(
        walk_pairs(&vec![add_function(), leaf(Rule::Other, "")]).err(),
        Some(CompileError::MalformedSyntax)
    );
    let file = node(Rule::File, "", vec![add_function()]);
    assert_eq!(RudaParser::functions(&file).unwrap().len(), 1);
}

#[test]
fn the_imports_of_a_file_are_the_last_parts_of_its_import_items() {
    let file = node(
        Rule::File,
        "",
        vec![
            node(
                Rule::ImportModule,
                "",
                vec![leaf(Rule::Ident, "math"), leaf(Rule::Other, "lib/math.ruda")],
            ),
            add_function(),
            leaf(Rule::ImportModule, "import"),
            node(
                Rule::ImportModule,
                "",
                vec![leaf(Rule::Other, "util.ruda")],
            ),
        ],
    );
    assert_eq!(
        RudaParser::imports(&file),
        vec!["lib/math.ruda", "util.ruda"]
    );
    assert!(RudaParser::imports(&leaf(Rule::File, "")).is_empty());
}
