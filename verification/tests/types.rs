use runtime_values::types::{
    AnyTypeEnum, ArrayType, BasicTypeEnum, FloatKind, FloatType, IntType, PointerType, StructType,
    TypeKind, VoidType,
};

#[test]
fn test_function_type() {
    let int = IntType::i8_type();
    let float = FloatType::f32_type();
    let fn_type = int.fn_type(
        vec![
            BasicTypeEnum::IntType(int),
            BasicTypeEnum::IntType(int),
            BasicTypeEnum::FloatType(float),
        ],
        false,
    );

    assert!(!fn_type.is_var_arg());

    let param_types = fn_type.get_param_types();

    assert_eq!(param_types.len(), 3);
    assert_eq!(*param_types[0].as_int_type(), int);
    assert_eq!(*param_types[1].as_int_type(), int);
    assert_eq!(*param_types[2].as_float_type(), float);

    let fn_type = int.fn_type(vec![BasicTypeEnum::IntType(int), BasicTypeEnum::FloatType(float)], true);

    assert!(fn_type.is_var_arg());
}

#[test]
fn int_types_have_their_width() {
    assert_eq!(IntType::bool_type().get_bit_width(), 1);
    assert_eq!(IntType::i8_type().get_bit_width(), 8);
    assert_eq!(IntType::i16_type().get_bit_width(), 16);
    assert_eq!(IntType::i32_type().get_bit_width(), 32);
    assert_eq!(IntType::i64_type().get_bit_width(), 64);
    assert_eq!(IntType::i128_type().get_bit_width(), 128);
    assert_eq!(IntType::custom_width_int_type(23).get_bit_width(), 23);
}

#[test]
fn float_types_have_their_precision() {
    assert_eq!(FloatType::f16_type().kind, FloatKind::Half);
    assert_eq!(FloatType::f32_type().kind, FloatKind::Float);
    assert_eq!(FloatType::f64_type().kind, FloatKind::Double);
    assert_eq!(FloatType::i128_type().kind, FloatKind::Fp128);
    assert_eq!(FloatType::f128_type_ppc().kind, FloatKind::PpcFp128);
}

#[test]
fn basic_type_predicates_tell_the_variants_apart() {
    let all = [
        BasicTypeEnum::IntType(IntType::i32_type()),
        BasicTypeEnum::FloatType(FloatType::f32_type()),
        BasicTypeEnum::PointerType(PointerType { address_space: 0 }),
        BasicTypeEnum::StructType(StructType::struct_type(vec![], false)),
        BasicTypeEnum::ArrayType(IntType::i8_type().array_type(3)),
        BasicTypeEnum::VectorType(IntType::i8_type().vec_type(4)),
    ];
    for (place, ty) in all.iter().enumerate() {
        assert_eq!(ty.is_int_type(), place == 0);
        assert_eq!(ty.is_float_type(), place == 1);
        assert_eq!(ty.is_pointer_type(), place == 2);
        assert_eq!(ty.is_struct_type(), place == 3);
        assert_eq!(ty.is_array_type(), place == 4);
        assert_eq!(ty.is_vector_type(), place == 5);
    }
}

#[test]
fn basic_type_accessors_give_the_wrapped_type() {
    let int = BasicTypeEnum::IntType(IntType::i16_type());
    assert_eq!(*int.as_int_type(), IntType::i16_type());
    assert_eq!(int.into_int_type(), IntType::i16_type());
    let float = BasicTypeEnum::FloatType(FloatType::f64_type());
    assert_eq!(*float.as_float_type(), FloatType::f64_type());
    assert_eq!(float.into_float_type(), FloatType::f64_type());
    let pointer = BasicTypeEnum::PointerType(IntType::i8_type().ptr_type(3));
    assert_eq!(pointer.as_pointer_type().get_address_space(), 3);
    assert_eq!(pointer.into_pointer_type(), PointerType { address_space: 3 });
    let array = BasicTypeEnum::ArrayType(IntType::i8_type().array_type(5));
    assert_eq!(array.as_array_type().len(), 5);
    assert_eq!(array.into_array_type(), ArrayType {
        element: Box::new(BasicTypeEnum::IntType(IntType::i8_type())),
        len: 5,
    });
    let vector = BasicTypeEnum::VectorType(FloatType::f32_type().vec_type(8));
    assert_eq!(vector.as_vector_type().size(), 8);
    assert_eq!(
        *vector.as_vector_type().get_element_type(),
        BasicTypeEnum::FloatType(FloatType::f32_type())
    );
    assert_eq!(vector.into_vector_type().size, 8);
    let structure = BasicTypeEnum::StructType(StructType::struct_type(
        vec![BasicTypeEnum::IntType(IntType::i8_type())],
        true,
    ));
    assert!(structure.as_struct_type().is_packed());
    assert_eq!(structure.into_struct_type().count_field_types(), 1);
}

#[test]
fn struct_type_fields() {
    let structure = StructType::struct_type(
        vec![
            BasicTypeEnum::IntType(IntType::i8_type()),
            BasicTypeEnum::FloatType(FloatType::f64_type()),
        ],
        false,
    );
    assert_eq!(structure.count_field_types(), 2);
    assert_eq!(structure.get_field_types().len(), 2);
    assert_eq!(
        structure.get_type_at_field_index(0),
        Some(&BasicTypeEnum::IntType(IntType::i8_type()))
    );
    assert_eq!(
        structure.get_type_at_field_index(1),
        Some(&BasicTypeEnum::FloatType(FloatType::f64_type()))
    );
    assert_eq!(structure.get_type_at_field_index(2), None);
    assert_eq!(structure.get_type_at_field_index(u32::MAX), None);
    assert!(!structure.is_packed());
    assert!(!structure.is_opaque());
    assert!(structure.is_sized());
}

#[test]
fn derived_types_keep_what_they_were_made_of() {
    let structure = StructType::struct_type(vec![BasicTypeEnum::IntType(IntType::i8_type())], false);
    let array = structure.array_type(4);
    assert_eq!(array.len(), 4);
    assert!(array.get_element_type().is_struct_type());
    let nested = array.array_type(2);
    assert_eq!(nested.len(), 2);
    assert_eq!(nested.get_element_type().as_array_type().len(), 4);
    assert_eq!(nested.ptr_type(7).get_address_space(), 7);
    assert_eq!(PointerType { address_space: 1 }.ptr_type(2).get_address_space(), 2);
    assert_eq!(PointerType { address_space: 1 }.array_type(3).len(), 3);
}

#[test]
fn function_types_of_each_return_type() {
    let void = VoidType::void_type().fn_type(vec![], false);
    assert_eq!(*void.get_return_type(), AnyTypeEnum::VoidType(VoidType::void_type()));
    assert_eq!(void.count_param_types(), 0);
    assert!(!void.is_sized());
    assert!(!VoidType::void_type().is_sized());
    let float = FloatType::f32_type().fn_type(vec![BasicTypeEnum::IntType(IntType::bool_type())], true);
    assert_eq!(*float.get_return_type(), AnyTypeEnum::FloatType(FloatType::f32_type()));
    assert_eq!(float.count_param_types(), 1);
    assert!(float.is_var_arg());
}

#[test]
fn kinds_of_types() {
    assert_eq!(BasicTypeEnum::IntType(IntType::i8_type()).kind(), TypeKind::Integer);
    assert_eq!(BasicTypeEnum::FloatType(FloatType::f16_type()).kind(), TypeKind::Half);
    assert_eq!(BasicTypeEnum::FloatType(FloatType::f32_type()).kind(), TypeKind::Float);
    assert_eq!(BasicTypeEnum::FloatType(FloatType::f64_type()).kind(), TypeKind::Double);
    assert_eq!(BasicTypeEnum::FloatType(FloatType::i128_type()).kind(), TypeKind::Fp128);
    assert_eq!(BasicTypeEnum::FloatType(FloatType::f128_type_ppc()).kind(), TypeKind::PpcFp128);
    assert_eq!(AnyTypeEnum::VoidType(VoidType::void_type()).kind(), TypeKind::Void);
    assert_eq!(
        AnyTypeEnum::FunctionType(IntType::i8_type().fn_type(vec![], false)).kind(),
        TypeKind::Function
    );
    assert_eq!(AnyTypeEnum::PointerType(PointerType { address_space: 0 }).kind(), TypeKind::Pointer);
}

#[test]
fn kinds_that_are_basic() {
    let basic = [
        TypeKind::Half,
        TypeKind::Float,
        TypeKind::Double,
        TypeKind::X86Fp80,
        TypeKind::Fp128,
        TypeKind::PpcFp128,
        TypeKind::Integer,
        TypeKind::Struct,
        TypeKind::Array,
        TypeKind::Pointer,
        TypeKind::Vector,
    ];
    for kind in basic {
        assert!(kind.is_basic());
        assert!(kind.is_described());
    }
    for kind in [TypeKind::Void, TypeKind::Function] {
        assert!(!kind.is_basic());
        assert!(kind.is_described());
    }
    for kind in [TypeKind::Label, TypeKind::Metadata, TypeKind::X86Mmx] {
        assert!(!kind.is_basic());
        assert!(!kind.is_described());
    }
    assert_eq!(TypeKind::X86Fp80.float_kind(), Some(FloatKind::X86Fp80));
    assert_eq!(TypeKind::Integer.float_kind(), None);
    assert_eq!(FloatKind::X86Fp80.kind(), TypeKind::X86Fp80);
}

#[test]
fn narrowing_a_type_keeps_it() {
    let narrowed = BasicTypeEnum::new(AnyTypeEnum::IntType(IntType::i32_type()));
    assert_eq!(narrowed, BasicTypeEnum::IntType(IntType::i32_type()));
    let array = BasicTypeEnum::new(AnyTypeEnum::ArrayType(IntType::i8_type().array_type(2)));
    assert_eq!(array, BasicTypeEnum::ArrayType(IntType::i8_type().array_type(2)));
}

#[test]
fn a_copy_of_a_description_says_the_same() {
    let structure = StructType::struct_type(
        vec![
            BasicTypeEnum::IntType(IntType::i8_type()),
            BasicTypeEnum::ArrayType(FloatType::f64_type().array_type(3)),
            BasicTypeEnum::VectorType(IntType::i32_type().vec_type(4)),
            BasicTypeEnum::StructType(StructType::struct_type(vec![], true)),
        ],
        false,
    );
    assert_eq!(structure.clone(), structure);
    let basic = BasicTypeEnum::StructType(structure.clone());
    assert_eq!(basic.clone(), basic);
    let array = structure.clone().array_type(2);
    assert_eq!(array.clone(), array);
    let vector = IntType::i8_type().vec_type(16);
    assert_eq!(vector.clone(), vector);
    let function = structure.fn_type(vec![basic.clone(), basic.clone()], true);
    assert_eq!(function.clone(), function);
    let any = AnyTypeEnum::FunctionType(function);
    assert_eq!(any.clone(), any);
    assert_ne!(any, AnyTypeEnum::VoidType(VoidType::void_type()));
}

#[test]
fn types_convert_into_the_enums() {
    assert_eq!(BasicTypeEnum::from(IntType::i8_type()), BasicTypeEnum::IntType(IntType::i8_type()));
    assert_eq!(
        BasicTypeEnum::from(FloatType::f32_type()),
        BasicTypeEnum::FloatType(FloatType::f32_type())
    );
    assert_eq!(
        BasicTypeEnum::from(PointerType { address_space: 2 }),
        BasicTypeEnum::PointerType(PointerType { address_space: 2 })
    );
    assert!(BasicTypeEnum::from(StructType::struct_type(vec![], false)).is_struct_type());
    assert!(BasicTypeEnum::from(IntType::i8_type().array_type(1)).is_array_type());
    assert!(BasicTypeEnum::from(IntType::i8_type().vec_type(1)).is_vector_type());
    assert_eq!(AnyTypeEnum::from(VoidType::void_type()), AnyTypeEnum::VoidType(VoidType::void_type()));
    assert_eq!(AnyTypeEnum::from(IntType::i8_type()), AnyTypeEnum::IntType(IntType::i8_type()));
    assert_eq!(
        AnyTypeEnum::from(IntType::i8_type().fn_type(vec![], false)).kind(),
        TypeKind::Function
    );
    let any: AnyTypeEnum = FloatType::f64_type().into();
    assert_eq!(any.kind(), TypeKind::Double);
}
