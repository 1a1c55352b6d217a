use ruda::text::{decimal, print_type, rename_illegal};
use ruda::{
    gen_subtype_cast, map_type, reverse_type, select_cast, AddressSpace, Builder, CastOp, Inst,
    IrType, TyName, Value,
};

fn prim(name: &str) -> TyName {
    TyName::named(name)
}

fn pointer(inner: IrType, space: AddressSpace) -> IrType {
    IrType::Pointer(Box::new(inner), space)
}

#[test]
fn address_spaces_have_the_numbers_of_the_target() {
    assert_eq!(AddressSpace::Generic.code(), 0);
    assert_eq!(AddressSpace::Global.code(), 1);
    assert_eq!(AddressSpace::Constant.code(), 4);
}

#[test]
fn primitives_map_to_their_widths() {
    assert_eq!(map_type(&prim("bool"), false, false), IrType::Int(1));
    assert_eq!(map_type(&prim("i8"), false, false), IrType::Int(8));
    assert_eq!(map_type(&prim("i16"), false, false), IrType::Int(16));
    assert_eq!(map_type(&prim("i32"), false, false), IrType::Int(32));
    assert_eq!(map_type(&prim("i64"), false, false), IrType::Int(64));
    assert_eq!(map_type(&prim("f32"), false, false), IrType::Float);
    assert_eq!(map_type(&prim("f64"), false, false), IrType::Double);
}

#[test]
fn what_has_no_representation_maps_to_void() {
    assert_eq!(map_type(&prim("u32"), false, false), IrType::Void);
    assert_eq!(map_type(&TyName::Unit, false, true), IrType::Void);
    assert_eq!(map_type(&TyName::VarBind(String::from("i32")), false, false), IrType::Void);
    assert_eq!(map_type(&TyName::Tuple(vec![prim("i32")]), false, false), IrType::Void);
    assert_eq!(
        map_type(&TyName::get_arrow(vec![prim("i32")], prim("i32")), false, false),
        IrType::Void
    );
}

#[test]
fn host_pointers_are_generic() {
    let array = TyName::Array(Box::new(prim("i32")));
    assert_eq!(
        map_type(&array, false, false),
        pointer(IrType::Int(32), AddressSpace::Generic)
    );
    let assignable = TyName::MutBind(Box::new(TyName::Array(Box::new(prim("i32")))));
    assert_eq!(
        map_type(&assignable, false, false),
        pointer(IrType::Int(32), AddressSpace::Generic)
    );
}

#[test]
fn device_pointers_to_assignable_data_are_global() {
    let assignable = TyName::MutBind(Box::new(TyName::Array(Box::new(prim("f32")))));
    assert_eq!(
        map_type(&assignable, false, true),
        pointer(IrType::Float, AddressSpace::Global)
    );
}

#[test]
fn device_pointers_to_other_data_are_constant() {
    let array = TyName::Array(Box::new(prim("f32")));
    assert_eq!(
        map_type(&array, false, true),
        pointer(IrType::Float, AddressSpace::Constant)
    );
}

#[test]
fn the_elements_of_an_assignable_array_are_not_assignable_themselves() {
    let nested = TyName::MutBind(Box::new(TyName::Array(Box::new(TyName::Array(Box::new(
        prim("i8"),
    ))))));
    assert_eq!(
        map_type(&nested, false, true),
        pointer(
            pointer(IrType::Int(8), AddressSpace::Constant),
            AddressSpace::Global
        )
    );
}

#[test]
fn an_assignable_binding_is_represented_as_what_it_binds() {
    let assignable = TyName::MutBind(Box::new(prim("i64")));
    assert_eq!(map_type(&assignable, false, true), IrType::Int(64));
}

#[test]
fn representations_map_back_to_the_language() {
    assert_eq!(reverse_type(&IrType::Int(1)), prim("bool"));
    assert_eq!(reverse_type(&IrType::Int(8)), prim("i8"));
    assert_eq!(reverse_type(&IrType::Int(16)), prim("i16"));
    assert_eq!(reverse_type(&IrType::Int(32)), prim("i32"));
    assert_eq!(reverse_type(&IrType::Int(64)), prim("i64"));
    assert_eq!(reverse_type(&IrType::Float), prim("f32"));
    assert_eq!(reverse_type(&IrType::Double), prim("f64"));
    assert_eq!(reverse_type(&IrType::Int(24)), TyName::Unit);
    assert_eq!(reverse_type(&IrType::Void), TyName::Unit);
    assert_eq!(
        reverse_type(&pointer(IrType::Int(32), AddressSpace::Global)),
        TyName::Array(Box::new(prim("i32")))
    );
    assert_eq!(
        reverse_type(&pointer(IrType::Int(128), AddressSpace::Generic)),
        TyName::Array(Box::new(TyName::Unit))
    );
}

#[test]
fn pointee_and_address_space_of_a_type() {
    let ptr = pointer(IrType::Double, AddressSpace::Constant);
    assert_eq!(ptr.pointee(), IrType::Double);
    assert_eq!(ptr.address_space(), Some(AddressSpace::Constant));
    assert_eq!(IrType::Int(32).pointee(), IrType::Void);
    assert_eq!(IrType::Int(32).address_space(), None);
    assert_eq!(ptr.clone(), ptr);
}

#[test]
fn the_direct_casts() {
    assert_eq!(
        select_cast(&prim("i32"), &prim("i64")),
        Some((CastOp::SignExtend, IrType::Int(64)))
    );
    assert_eq!(
        select_cast(&prim("i32"), &prim("f32")),
        Some((CastOp::SignedToFloat, IrType::Float))
    );
    assert_eq!(
        select_cast(&prim("i32"), &prim("f64")),
        Some((CastOp::SignedToFloat, IrType::Double))
    );
    assert_eq!(
        select_cast(&prim("i64"), &prim("f64")),
        Some((CastOp::SignedToFloat, IrType::Double))
    );
    assert_eq!(
        select_cast(&prim("f32"), &prim("f64")),
        Some((CastOp::FloatExtend, IrType::Double))
    );
    assert_eq!(select_cast(&prim("i64"), &prim("i32")), None);
    assert_eq!(select_cast(&prim("i32"), &prim("i32")), None);
    assert_eq!(select_cast(&prim("bool"), &prim("i32")), None);
    assert_eq!(select_cast(&TyName::Unit, &prim("i32")), None);
}

#[test]
fn casting_i32_to_f64_is_a_single_conversion() {
    let mut builder = Builder::new(vec![IrType::Int(32)]);
    let cast = gen_subtype_cast(&prim("i32"), &prim("f64"), Value::Param(0), &mut builder);
    assert_eq!(cast, Value::Inst(0));
    assert_eq!(builder.len(), 1);
    match &builder.code[0] {
        (Inst::Cast { kind, value, to }, ty) => {
            assert_eq!(*kind, CastOp::SignedToFloat);
            assert_eq!(*value, Value::Param(0));
            assert_eq!(*to, IrType::Double);
            assert_eq!(*ty, IrType::Double);
        }
        other => panic!("not a cast: {:?}", other),
    }
    assert_eq!(builder.type_of(cast), IrType::Double);
}

#[test]
fn casting_to_the_same_type_emits_nothing() {
    let mut builder = Builder::new(vec![IrType::Int(32)]);
    let cast = gen_subtype_cast(&prim("i32"), &prim("i32"), Value::Param(0), &mut builder);
    assert_eq!(cast, Value::Param(0));
    assert_eq!(builder.len(), 0);
}

#[test]
fn casting_between_unrelated_types_hands_the_value_back() {
    let mut builder = Builder::new(vec![IrType::Double]);
    let cast = gen_subtype_cast(&prim("f64"), &prim("i32"), Value::Param(0), &mut builder);
    assert_eq!(cast, Value::Param(0));
    assert_eq!(builder.len(), 0);
}

#[test]
fn the_builder_types_what_it_emits() {
    let ptr = pointer(IrType::Float, AddressSpace::Global);
    let mut builder = Builder::new(vec![ptr.clone(), IrType::Int(64)]);
    assert_eq!(builder.type_of(Value::Param(0)), ptr);
    assert_eq!(builder.type_of(Value::Param(1)), IrType::Int(64));
    assert_eq!(builder.type_of(Value::Param(2)), IrType::Void);
    assert_eq!(builder.type_of(Value::ConstInt(7)), IrType::Int(64));
    assert_eq!(builder.type_of(Value::ConstReal(0)), IrType::Double);
    assert_eq!(builder.type_of(Value::Null), IrType::Void);
    assert_eq!(builder.type_of(Value::Inst(0)), IrType::Void);
    let address = builder.build_element_ptr(Value::Param(0), Value::Param(1));
    assert_eq!(address, Value::Inst(0));
    assert_eq!(builder.type_of(address), ptr);
    let loaded = builder.build_load(address);
    assert_eq!(loaded, Value::Inst(1));
    assert_eq!(builder.type_of(loaded), IrType::Float);
    let stored = builder.build_store(loaded, address);
    assert_eq!(stored, Value::Inst(2));
    assert_eq!(builder.type_of(stored), IrType::Void);
    let sum = builder.build_binary(ruda::BinOp::Add, loaded, loaded);
    assert_eq!(builder.type_of(sum), IrType::Float);
    let called = builder.build_call(5, IrType::Int(32), vec![sum], String::from("calltmp"));
    assert_eq!(builder.type_of(called), IrType::Int(32));
    let returned = builder.build_ret(called);
    assert_eq!(returned, Value::Inst(5));
    let returned = builder.build_ret_void();
    assert_eq!(returned, Value::Inst(6));
    assert_eq!(builder.len(), 7);
}

#[test]
fn types_are_spelled_as_the_target_spells_them() {
    assert_eq!(print_type(&IrType::Void), "void");
    assert_eq!(print_type(&IrType::Int(1)), "i1");
    assert_eq!(print_type(&IrType::Int(32)), "i32");
    assert_eq!(print_type(&IrType::Int(64)), "i64");
    assert_eq!(print_type(&IrType::Int(128)), "i128");
    assert_eq!(print_type(&IrType::Float), "float");
    assert_eq!(print_type(&IrType::Double), "double");
    assert_eq!(
        print_type(&pointer(IrType::Int(32), AddressSpace::Generic)),
        "i32*"
    );
    assert_eq!(
        print_type(&pointer(IrType::Float, AddressSpace::Global)),
        "float addrspace(1)*"
    );
    assert_eq!(
        print_type(&pointer(IrType::Double, AddressSpace::Constant)),
        "double addrspace(4)*"
    );
    assert_eq!(
        print_type(&pointer(
            pointer(IrType::Int(8), AddressSpace::Generic),
            AddressSpace::Generic
        )),
        "i8**"
    );
}

#[test]
fn numbers_are_written_in_decimal() {
    assert_eq!(decimal(0), "0");
    assert_eq!(decimal(7), "7");
    assert_eq!(decimal(10), "10");
    assert_eq!(decimal(64), "64");
    assert_eq!(decimal(1905), "1905");
    assert_eq!(decimal(u32::MAX), "4294967295");
}

#[test]
fn dots_in_names_become_underscores() {
    assert_eq!(rename_illegal(&String::from("f.1")), "f_1");
    assert_eq!(rename_illegal(&String::from("plain")), "plain");
    assert_eq!(rename_illegal(&String::from("")), "");
    assert_eq!(rename_illegal(&String::from("a.b.c.")), "a_b_c_");
    assert_eq!(rename_illegal(&String::from("é.ü")), "é_ü");
}
