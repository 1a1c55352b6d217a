use ruda::{is_subtype, subtype_check, TyName};

fn prim(name: &str) -> TyName {
    TyName::named(name)
}

#[test]
fn every_type_is_a_subtype_of_itself_at_no_cost() {
    let samples = vec![
        prim("bool"),
        prim("i8"),
        prim("i32"),
        prim("f64"),
        prim("anything"),
        TyName::VarBind(String::from("ret@f")),
        TyName::MutBind(Box::new(prim("i32"))),
        TyName::Array(Box::new(prim("f32"))),
        TyName::Tuple(vec![prim("i32"), prim("i64")]),
        TyName::get_arrow(vec![prim("i32")], prim("i64")),
        TyName::Unit,
    ];
    for ty in samples.iter() {
        assert_eq!(is_subtype(ty, ty), (true, 0));
    }
}

#[test]
fn i32_reaches_f64_in_two_steps() {
    assert_eq!(is_subtype(&prim("i32"), &prim("f64")), (true, 2));
    assert_eq!(subtype_check(&prim("i32"), &prim("f64")), Some(2));
}

#[test]
fn f64_is_no_subtype_of_i32() {
    assert_eq!(is_subtype(&prim("f64"), &prim("i32")), (false, 0));
    assert_eq!(subtype_check(&prim("f64"), &prim("i32")), None);
}

#[test]
fn bool_takes_part_in_no_widening() {
    assert_eq!(is_subtype(&prim("bool"), &prim("i32")), (false, 0));
    assert_eq!(is_subtype(&prim("i32"), &prim("bool")), (false, 0));
    assert_eq!(is_subtype(&prim("bool"), &prim("f64")), (false, 0));
}

#[test]
fn single_steps_cost_one() {
    assert_eq!(is_subtype(&prim("i32"), &prim("i64")), (true, 1));
    assert_eq!(is_subtype(&prim("i32"), &prim("f32")), (true, 1));
    assert_eq!(is_subtype(&prim("i64"), &prim("f64")), (true, 1));
    assert_eq!(is_subtype(&prim("f32"), &prim("f64")), (true, 1));
}

#[test]
fn unrelated_primitives_are_no_subtypes() {
    assert_eq!(is_subtype(&prim("i64"), &prim("f32")), (false, 0));
    assert_eq!(is_subtype(&prim("f32"), &prim("i64")), (false, 0));
    assert_eq!(is_subtype(&prim("i64"), &prim("i32")), (false, 0));
    assert_eq!(is_subtype(&prim("i8"), &prim("i16")), (false, 0));
    assert_eq!(is_subtype(&prim("i16"), &prim("i32")), (false, 0));
}

#[test]
fn compound_types_do_not_widen() {
    let narrow = TyName::Array(Box::new(prim("i32")));
    let wide = TyName::Array(Box::new(prim("i64")));
    assert_eq!(is_subtype(&narrow, &wide), (false, 0));
    let narrow = TyName::Tuple(vec![prim("i32")]);
    let wide = TyName::Tuple(vec![prim("i64")]);
    assert_eq!(is_subtype(&narrow, &wide), (false, 0));
    let narrow = TyName::MutBind(Box::new(prim("i32")));
    assert_eq!(is_subtype(&narrow, &prim("i32")), (false, 0));
    assert_eq!(is_subtype(&prim("i32"), &narrow), (false, 0));
    assert_eq!(is_subtype(&TyName::Unit, &prim("i32")), (false, 0));
}

#[test]
fn equality_is_structural() {
    assert_eq!(prim("i32"), prim("i32"));
    assert_ne!(prim("i32"), prim("i64"));
    assert_ne!(prim("i32"), TyName::VarBind(String::from("i32")));
    assert_eq!(
        TyName::Tuple(vec![prim("i32"), TyName::Unit]),
        TyName::Tuple(vec![prim("i32"), TyName::Unit])
    );
    assert_ne!(
        TyName::Tuple(vec![prim("i32"), TyName::Unit]),
        TyName::Tuple(vec![prim("i32")])
    );
    assert_ne!(
        TyName::Tuple(vec![prim("i32"), TyName::Unit]),
        TyName::Tuple(vec![TyName::Unit, prim("i32")])
    );
    assert_ne!(
        TyName::Array(Box::new(prim("i32"))),
        TyName::MutBind(Box::new(prim("i32")))
    );
    let arrow = TyName::get_arrow(vec![prim("i32")], prim("f64"));
    assert_eq!(
        arrow,
        TyName::Arrow(
            Box::new(TyName::Tuple(vec![prim("i32")])),
            Box::new(prim("f64"))
        )
    );
    assert_eq!(arrow.clone(), arrow);
}
