use runtime_values::engine::{Engine, MiriPointer};
use runtime_values::aggregate::{field_type_of, field_types_of};
use runtime_values::generic_value::{
    width_in_bytes, GenericValue, GenericValueArrayRef, GenericValueRef,
};
use runtime_values::types::{BasicTypeEnum, FloatType, IntType, StructType};

#[test]
fn single_precision_reads_back_bit_identical() {
    let mut engine = Engine::new();
    for value in [0.0f32, -0.0, 1.5, f32::MIN_POSITIVE, f32::MAX, f32::INFINITY, f32::NAN] {
        let made = GenericValue::new_f32(&mut engine, value.to_bits());
        assert_eq!(made.as_ref().as_f32(&engine), value.to_bits());
        made.dispose(&mut engine);
    }
}

#[test]
fn double_precision_reads_back_bit_identical() {
    let mut engine = Engine::new();
    for value in [0.0f64, -0.0, 2.25, f64::MIN_POSITIVE, f64::MAX, f64::NEG_INFINITY, f64::NAN] {
        let made = GenericValue::new_f64(&mut engine, value.to_bits());
        assert_eq!(made.as_ref().as_f64(&engine), value.to_bits());
        made.dispose(&mut engine);
    }
}

#[test]
fn float_setters_overwrite_the_content() {
    let mut engine = Engine::new();
    let mut made = GenericValue::new_f32(&mut engine, 1.0f32.to_bits());
    made.as_mut().set_float_value(&mut engine, 3.5f32.to_bits());
    assert_eq!(made.as_ref().as_f32(&engine), 3.5f32.to_bits());
    made.as_mut().set_double_value(&mut engine, 7.25f64.to_bits());
    assert_eq!(made.as_ref().as_f64(&engine), 7.25f64.to_bits());
}

#[test]
fn fresh_value_has_no_type_tag() {
    let mut engine = Engine::new();
    let made = GenericValue::new_void(&mut engine);
    assert!(made.as_ref().get_type_tag(&engine).is_none());
    assert_eq!(engine.data(made.as_ref().into_raw()).len(), 0);
}

#[test]
fn type_tag_is_read_back_after_it_was_set() {
    let ty = BasicTypeEnum::IntType(IntType::i32_type());
    let other = BasicTypeEnum::FloatType(FloatType::f64_type());
    let mut engine = Engine::new();
    let made = GenericValue::new_int(&mut engine, 9, &IntType::i32_type(), false);
    made.as_ref().set_type_tag(&mut engine, &ty);
    assert_eq!(made.as_ref().get_type_tag(&engine), Some(&ty));
    assert_eq!(made.as_ref().assert_type_tag(&engine), &ty);
    made.as_ref().set_type_tag(&mut engine, &other);
    assert_eq!(made.as_ref().get_type_tag(&engine), Some(&other));
}

#[test]
fn new_int_cuts_the_value_to_the_width() {
    let mut engine = Engine::new();
    let byte = GenericValue::new_int(&mut engine, 0x1ff, &IntType::i8_type(), false);
    assert_eq!(byte.as_ref().int_width(&engine), 8);
    assert_eq!(byte.as_ref().as_int(&engine), 0xff);
    let bit = GenericValue::new_int(&mut engine, 3, &IntType::bool_type(), false);
    assert_eq!(bit.as_ref().as_int(&engine), 1);
    let word = GenericValue::new_int(&mut engine, u64::MAX, &IntType::i64_type(), false);
    assert_eq!(word.as_ref().as_int(&engine), u64::MAX as u128);
}

#[test]
fn new_int_continues_a_signed_value_by_its_sign() {
    let mut engine = Engine::new();
    let minus_one = (-1i64) as u64;
    let wide = GenericValue::new_int(&mut engine, minus_one, &IntType::i128_type(), true);
    assert_eq!(wide.as_ref().int_width(&engine), 128);
    assert_eq!(wide.as_ref().as_int(&engine), u128::MAX);
    let unsigned = GenericValue::new_int(&mut engine, minus_one, &IntType::i128_type(), false);
    assert_eq!(unsigned.as_ref().as_int(&engine), u64::MAX as u128);
    let odd = GenericValue::new_int(&mut engine, minus_one, &IntType::custom_width_int_type(72), true);
    assert_eq!(odd.as_ref().as_int(&engine), (1u128 << 72) - 1);
    let positive = GenericValue::new_int(&mut engine, 5, &IntType::i128_type(), true);
    assert_eq!(positive.as_ref().as_int(&engine), 5);
}

#[test]
fn int_width_bytes_rounds_up() {
    let mut engine = Engine::new();
    let cases: [(u32, u32); 8] =
        [(1, 1), (7, 1), (8, 1), (9, 2), (64, 8), (65, 9), (127, 16), (128, 16)];
    for (bits, bytes) in cases {
        let made = GenericValue::new_int(&mut engine, 0, &IntType::custom_width_int_type(bits), false);
        assert_eq!(made.as_ref().int_width(&engine), bits);
        assert_eq!(made.as_ref().int_width_bytes(&engine), bytes);
    }
}

#[test]
fn int_width_bytes_of_the_widest_width_does_not_overflow() {
    let mut engine = Engine::new();
    let mut made = GenericValue::new_void(&mut engine);
    made.as_mut().set_int_value(&mut engine, 0, (u32::MAX / 8) as u64);
    assert_eq!(made.as_ref().int_width(&engine), u32::MAX - 7);
    assert_eq!(made.as_ref().int_width_bytes(&engine), u32::MAX / 8);
}

#[test]
fn set_int_value_with_sixteen_bytes_reads_back_exactly() {
    let mut engine = Engine::new();
    let mut made = GenericValue::new_void(&mut engine);
    for value in [0u128, 1, u64::MAX as u128, 1 << 64, 0x0123_4567_89ab_cdef_0011_2233_4455_6677, u128::MAX] {
        made.as_mut().set_int_value(&mut engine, value, 16);
        assert_eq!(made.as_ref().int_width(&engine), 128);
        assert_eq!(made.as_ref().as_int(&engine), value);
    }
}

#[test]
fn set_int_value_with_eight_bytes_takes_the_one_word_path() {
    let mut engine = Engine::new();
    let mut made = GenericValue::new_void(&mut engine);
    for value in [0u128, 1, 0xdead_beef, u64::MAX as u128] {
        made.as_mut().set_int_value(&mut engine, value, 8);
        assert_eq!(made.as_ref().int_width(&engine), 64);
        assert_eq!(engine.int_words(made.as_ref().into_raw()).len(), 1);
        assert_eq!(made.as_ref().as_int(&engine), value);
    }
}

#[test]
fn set_int_value_keeps_what_the_width_takes() {
    let mut engine = Engine::new();
    let mut made = GenericValue::new_void(&mut engine);
    made.as_mut().set_int_value(&mut engine, 0x1_23, 1);
    assert_eq!(made.as_ref().int_width(&engine), 8);
    assert_eq!(made.as_ref().as_int(&engine), 0x23);
    made.as_mut().set_int_value(&mut engine, u128::MAX, 9);
    assert_eq!(made.as_ref().int_width(&engine), 72);
    assert_eq!(engine.int_words(made.as_ref().into_raw()).len(), 2);
    made.as_mut().set_int_value(&mut engine, 5, 24);
    assert_eq!(engine.int_words(made.as_ref().into_raw()), &vec![5, 0, 0]);
}

#[test]
fn bytes_are_stored_as_given() {
    let mut engine = Engine::new();
    let mut made = GenericValue::from_byte_slice(&mut engine, &[1, 2, 3]);
    assert_eq!(engine.data(made.as_ref().into_raw()), &vec![1, 2, 3]);
    made.as_mut().set_bytes(&mut engine, &[9, 8]);
    assert_eq!(engine.data(made.as_ref().into_raw()), &vec![9, 8]);
    made.as_mut().set_bytes(&mut engine, &[]);
    assert_eq!(engine.data(made.as_ref().into_raw()).len(), 0);
}

#[test]
fn pointers_read_back() {
    let mut engine = Engine::new();
    let made = GenericValue::create_generic_value_of_pointer(&mut engine, 0x7fff_0010);
    assert_eq!(made.as_ref().into_pointer(&engine), 0x7fff_0010);
    let meta = MiriPointer { addr: 64, alloc_id: 3, tag: 17 };
    let mut miri = GenericValue::create_generic_value_of_miri_pointer(&mut engine, meta);
    assert_eq!(miri.as_ref().as_miri_pointer(&engine), meta);
    let other = MiriPointer { addr: 8, alloc_id: 4, tag: 0 };
    miri.as_mut().set_miri_pointer_value(&mut engine, other);
    assert_eq!(miri.as_ref().as_miri_pointer(&engine), other);
}

#[test]
fn aggregate_round_trip() {
    let element = IntType::i64_type();
    let tag = BasicTypeEnum::ArrayType(element.array_type(4));
    let values: [u64; 4] = [11, 22, 33, u64::MAX];
    let mut engine = Engine::new();
    let mut aggregate = GenericValue::new_aggregate(&mut engine, 4);
    assert_eq!(aggregate.as_ref().get_aggregate_size(&engine), 0);
    aggregate.as_ref().set_type_tag(&mut engine, &tag);
    let mut appended = Vec::new();
    for value in values {
        let member = GenericValue::new_int(&mut engine, value, &element, false);
        appended.push(member.as_ref().into_raw());
        aggregate.as_mut().append_aggregate_value(&mut engine, member);
    }
    assert_eq!(aggregate.as_ref().get_aggregate_size(&engine), 4);
    for index in 0..4u64 {
        let field = aggregate.as_ref().get_field(&mut engine, index).unwrap();
        assert_eq!(field.into_raw(), appended[index as usize]);
        assert_eq!(field.as_int(&engine), values[index as usize] as u128);
        assert_eq!(field.get_type_tag(&engine), Some(&BasicTypeEnum::IntType(element)));
    }
    assert!(aggregate.as_ref().get_field(&mut engine, 4).is_none());
}

#[test]
fn aggregate_of_no_members_has_no_field() {
    let tag = BasicTypeEnum::ArrayType(IntType::i8_type().array_type(0));
    let mut engine = Engine::new();
    let aggregate = GenericValue::new_aggregate(&mut engine, 0);
    aggregate.as_ref().set_type_tag(&mut engine, &tag);
    assert_eq!(aggregate.as_ref().get_aggregate_size(&engine), 0);
    assert!(aggregate.as_ref().get_field(&mut engine, 0).is_none());
    assert_eq!(aggregate.as_ref().get_fields(&mut engine), Some(vec![]));
}

#[test]
fn get_field_without_a_tag_gives_none() {
    let mut engine = Engine::new();
    let mut aggregate = GenericValue::new_aggregate(&mut engine, 1);
    let member = GenericValue::new_f32(&mut engine, 7);
    aggregate.as_mut().append_aggregate_value(&mut engine, member);
    assert_eq!(aggregate.as_ref().get_aggregate_size(&engine), 1);
    assert!(aggregate.as_ref().get_field(&mut engine, 0).is_none());
    assert!(aggregate.as_ref().get_fields(&mut engine).is_none());
}

#[test]
fn get_field_with_a_scalar_tag_gives_none() {
    let tag = BasicTypeEnum::IntType(IntType::i32_type());
    let mut engine = Engine::new();
    let mut aggregate = GenericValue::new_aggregate(&mut engine, 1);
    let member = GenericValue::new_f32(&mut engine, 7);
    let member_handle = member.as_ref().into_raw();
    aggregate.as_mut().append_aggregate_value(&mut engine, member);
    aggregate.as_ref().set_type_tag(&mut engine, &tag);
    assert!(aggregate.as_ref().get_field(&mut engine, 0).is_none());
    assert!(GenericValueRef::new(member_handle).get_type_tag(&engine).is_none());
}

#[test]
fn struct_fields_take_the_type_of_their_place() {
    let int = BasicTypeEnum::IntType(IntType::i16_type());
    let float = BasicTypeEnum::FloatType(FloatType::f32_type());
    let tag = BasicTypeEnum::StructType(StructType::struct_type(
        vec![BasicTypeEnum::IntType(IntType::i16_type()), BasicTypeEnum::FloatType(FloatType::f32_type())],
        false,
    ));
    let mut engine = Engine::new();
    let mut aggregate = GenericValue::new_aggregate(&mut engine, 2);
    aggregate.as_ref().set_type_tag(&mut engine, &tag);
    let first = GenericValue::new_int(&mut engine, 300, &IntType::i16_type(), false);
    let second = GenericValue::new_f32(&mut engine, 2.5f32.to_bits());
    aggregate.as_mut().append_aggregate_value(&mut engine, first);
    aggregate.as_mut().append_aggregate_value(&mut engine, second);
    let fields = aggregate.as_ref().get_fields(&mut engine).unwrap();
    assert_eq!(fields.len(), 2);
    assert_eq!(fields[0].get_type_tag(&engine), Some(&int));
    assert_eq!(fields[1].get_type_tag(&engine), Some(&float));
    assert_eq!(fields[0].as_int(&engine), 300);
    assert_eq!(fields[1].as_f32(&engine), 2.5f32.to_bits());
    let again = aggregate.as_ref().assert_fields(&mut engine);
    assert_eq!(again, fields);
    assert_eq!(aggregate.as_ref().assert_field(&mut engine, 1), fields[1]);
}

#[test]
fn struct_with_fewer_fields_than_members_has_no_fields() {
    let tag = BasicTypeEnum::StructType(StructType::struct_type(
        vec![BasicTypeEnum::IntType(IntType::i16_type())],
        false,
    ));
    let mut engine = Engine::new();
    let mut aggregate = GenericValue::new_aggregate(&mut engine, 2);
    aggregate.as_ref().set_type_tag(&mut engine, &tag);
    let first = GenericValue::new_int(&mut engine, 1, &IntType::i16_type(), false);
    let second = GenericValue::new_int(&mut engine, 2, &IntType::i16_type(), false);
    let second_handle = second.as_ref().into_raw();
    aggregate.as_mut().append_aggregate_value(&mut engine, first);
    aggregate.as_mut().append_aggregate_value(&mut engine, second);
    assert!(aggregate.as_ref().get_fields(&mut engine).is_none());
    assert!(aggregate.as_ref().get_field(&mut engine, 0).is_some());
    assert!(aggregate.as_ref().get_field(&mut engine, 1).is_none());
    assert!(GenericValueRef::new(second_handle).get_type_tag(&engine).is_none());
}

#[test]
fn vector_elements_take_the_element_type() {
    let element = BasicTypeEnum::FloatType(FloatType::f64_type());
    let tag = BasicTypeEnum::VectorType(FloatType::f64_type().vec_type(2));
    let mut engine = Engine::new();
    let mut aggregate = GenericValue::new_aggregate(&mut engine, 2);
    aggregate.as_ref().set_type_tag(&mut engine, &tag);
    let lane = GenericValue::new_f64(&mut engine, 1.0f64.to_bits());
    aggregate.as_mut().append_aggregate_value(&mut engine, lane);
    let field = aggregate.as_ref().get_field(&mut engine, 0).unwrap();
    assert_eq!(field.get_type_tag(&engine), Some(&element));
    assert_eq!(field.as_f64(&engine), 1.0f64.to_bits());
}

#[test]
fn a_write_through_a_field_is_seen_through_the_parent() {
    let tag = BasicTypeEnum::ArrayType(IntType::i64_type().array_type(1));
    let mut engine = Engine::new();
    let mut aggregate = GenericValue::new_aggregate(&mut engine, 1);
    aggregate.as_ref().set_type_tag(&mut engine, &tag);
    let member = GenericValue::new_int(&mut engine, 1, &IntType::i64_type(), false);
    aggregate.as_mut().append_aggregate_value(&mut engine, member);
    let mut field = aggregate.as_ref().get_field(&mut engine, 0).unwrap();
    field.set_int_value(&mut engine, 77, 8);
    let again = aggregate.as_ref().get_field(&mut engine, 0).unwrap();
    assert_eq!(again, field);
    assert_eq!(again.as_int(&engine), 77);
}

#[test]
fn nested_aggregates_keep_their_members() {
    let inner_tag = BasicTypeEnum::ArrayType(IntType::i8_type().array_type(1));
    let outer_tag = BasicTypeEnum::ArrayType(IntType::i8_type().array_type(1).array_type(1));
    let mut engine = Engine::new();
    let mut inner = GenericValue::new_aggregate(&mut engine, 1);
    let leaf = GenericValue::new_int(&mut engine, 5, &IntType::i8_type(), false);
    inner.as_mut().append_aggregate_value(&mut engine, leaf);
    let mut outer = GenericValue::new_aggregate(&mut engine, 1);
    outer.as_ref().set_type_tag(&mut engine, &outer_tag);
    outer.as_mut().append_aggregate_value(&mut engine, inner);
    let inner_view = outer.as_ref().get_field(&mut engine, 0).unwrap();
    assert_eq!(inner_view.get_type_tag(&engine), Some(&inner_tag));
    let leaf_view = inner_view.get_field(&mut engine, 0).unwrap();
    assert_eq!(leaf_view.as_int(&engine), 5);
    let outer_handle = outer.as_ref().into_raw();
    outer.dispose(&mut engine);
    assert!(!engine.is_live(outer_handle));
    assert!(!engine.is_live(inner_view.into_raw()));
    assert!(!engine.is_live(leaf_view.into_raw()));
}

#[test]
fn ensure_capacity_makes_room_and_keeps_what_is_held() {
    let mut engine = Engine::new();
    let mut aggregate = GenericValue::new_aggregate(&mut engine, 0);
    let handle = aggregate.as_ref().into_raw();
    assert_eq!(engine.room(handle), 0);
    let member = GenericValue::new_f32(&mut engine, 1);
    aggregate.as_mut().append_aggregate_value(&mut engine, member);
    assert_eq!(engine.room(handle), 1);
    aggregate.as_ref().ensure_capacity(&mut engine, 64);
    assert_eq!(engine.room(handle), 64);
    assert_eq!(aggregate.as_ref().get_aggregate_size(&engine), 1);
    aggregate.as_ref().ensure_capacity(&mut engine, 8);
    assert_eq!(engine.room(handle), 64);
    let scalar = GenericValue::new_f32(&mut engine, 2);
    scalar.as_ref().ensure_capacity(&mut engine, u64::MAX);
    assert_eq!(engine.room(scalar.as_ref().into_raw()), u64::MAX);
    assert_eq!(scalar.as_ref().as_f32(&engine), 2);
    assert_eq!(scalar.as_ref().get_aggregate_size(&engine), 0);
}

#[test]
fn a_new_aggregate_has_room_for_the_members_asked_for_and_none_yet() {
    let mut engine = Engine::new();
    let aggregate = GenericValue::new_aggregate(&mut engine, 5);
    assert_eq!(engine.room(aggregate.as_ref().into_raw()), 5);
    assert_eq!(aggregate.as_ref().get_aggregate_size(&engine), 0);
    let scalar = GenericValue::new_void(&mut engine);
    assert_eq!(engine.room(scalar.as_ref().into_raw()), 0);
}

#[test]
fn into_raw_releases_nothing_and_from_raw_reclaims() {
    let mut engine = Engine::new();
    let made = GenericValue::new_f32(&mut engine, 42);
    let raw = made.into_raw();
    assert!(engine.is_live(raw));
    assert_eq!(engine.release_count(raw), 0);
    let reclaimed = GenericValue::from_raw(raw);
    assert_eq!(reclaimed.as_ref().as_f32(&engine), 42);
    reclaimed.dispose(&mut engine);
    assert_eq!(engine.release_count(raw), 1);
    assert!(!engine.is_live(raw));
}

#[test]
fn dropping_an_owner_without_disposing_releases_nothing() {
    let mut engine = Engine::new();
    let raw;
    {
        let made = GenericValue::new_f64(&mut engine, 1);
        raw = made.as_ref().into_raw();
    }
    assert!(engine.is_live(raw));
    assert_eq!(engine.release_count(raw), 0);
}

#[test]
fn an_appended_value_is_released_with_its_aggregate_only() {
    let mut engine = Engine::new();
    let mut aggregate = GenericValue::new_aggregate(&mut engine, 1);
    let member = GenericValue::new_f32(&mut engine, 1);
    let member_handle = member.as_ref().into_raw();
    assert!(engine.is_root(member_handle));
    aggregate.as_mut().append_aggregate_value(&mut engine, member);
    assert!(!engine.is_root(member_handle));
    assert!(engine.is_live(member_handle));
    let handle = aggregate.as_ref().into_raw();
    aggregate.dispose(&mut engine);
    assert!(!engine.is_live(member_handle));
    assert_eq!(engine.release_count(handle), 1);
    assert_eq!(engine.release_count(member_handle), 0);
}

#[test]
fn handles_are_never_null_and_never_reused() {
    let mut engine = Engine::new();
    assert_eq!(engine.len(), 1);
    assert!(!engine.is_live(0));
    let first = GenericValue::new_void(&mut engine);
    let first_handle = first.as_ref().into_raw();
    assert_eq!(first_handle, 1);
    first.dispose(&mut engine);
    let second = GenericValue::new_void(&mut engine);
    assert_eq!(second.as_ref().into_raw(), 2);
    assert_eq!(engine.len(), 3);
    assert!(!engine.is_live(17));
}

#[test]
fn views_of_one_resource_are_equal() {
    let mut engine = Engine::new();
    let made = GenericValue::new_void(&mut engine);
    let view = *made.as_ref();
    let other = GenericValueRef::new(view.into_raw());
    assert_eq!(view, other);
}

#[test]
fn array_ref_yields_elements_in_range() {
    let mut engine = Engine::new();
    let a = GenericValue::new_f32(&mut engine, 1);
    let b = GenericValue::new_f32(&mut engine, 2);
    let array = GenericValueArrayRef::new(vec![*a.as_ref(), *b.as_ref()]);
    assert_eq!(array.len(), 2);
    assert_eq!(array.get_element_at(0), Some(*a.as_ref()));
    assert_eq!(array.get_element_at(1), Some(*b.as_ref()));
    assert_eq!(array.get_element_at(2), None);
    assert_eq!(GenericValueArrayRef::new(vec![]).get_element_at(0), None);
}

#[test]
fn field_types_follow_the_tag() {
    let int = BasicTypeEnum::IntType(IntType::i8_type());
    let array = BasicTypeEnum::ArrayType(IntType::i8_type().array_type(2));
    let structure = BasicTypeEnum::StructType(StructType::struct_type(
        vec![BasicTypeEnum::IntType(IntType::i8_type()), BasicTypeEnum::FloatType(FloatType::f32_type())],
        false,
    ));
    assert_eq!(field_type_of(None, 0), None);
    assert_eq!(field_type_of(Some(&int), 0), None);
    assert_eq!(field_type_of(Some(&array), 0), Some(&int));
    assert_eq!(field_type_of(Some(&array), 1_000_000), Some(&int));
    assert_eq!(field_type_of(Some(&structure), 1), Some(&BasicTypeEnum::FloatType(FloatType::f32_type())));
    assert_eq!(field_type_of(Some(&structure), 2), None);
    assert_eq!(field_type_of(Some(&structure), u64::MAX), None);
    assert_eq!(field_types_of(None, 0), Some(vec![]));
    assert_eq!(field_types_of(None, 1), None);
    assert_eq!(field_types_of(Some(&array), 3), Some(vec![&int, &int, &int]));
    assert_eq!(field_types_of(Some(&structure), 2).unwrap().len(), 2);
    assert_eq!(field_types_of(Some(&structure), 3), None);
    assert_eq!(width_in_bytes(0), 0);
    assert_eq!(width_in_bytes(1), 1);
    assert_eq!(width_in_bytes(16), 2);
    assert_eq!(width_in_bytes(17), 3);
    assert_eq!(width_in_bytes(u32::MAX), 536_870_912);
}
