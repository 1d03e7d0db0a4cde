use runtime_values::engine::{Engine, MiriPointer};
use runtime_values::types::{BasicTypeEnum, IntType};

#[test]
fn a_new_engine_holds_only_the_null_handle() {
    let engine = Engine::new();
    assert_eq!(engine.len(), 1);
    assert!(!engine.is_live(0));
    assert!(!engine.is_root(0));
    assert_eq!(engine.release_count(0), 0);
}

#[test]
fn integers_are_kept_at_their_width() {
    let mut engine = Engine::new();
    let narrow = engine.create_int(12, 0xffff, false);
    assert_eq!(engine.int_width(narrow), 12);
    assert_eq!(engine.int_words(narrow), &vec![0xfff]);
    let full = engine.create_int(64, u64::MAX, true);
    assert_eq!(engine.int_words(full), &vec![u64::MAX]);
    let signed = engine.create_int(72, u64::MAX, true);
    assert_eq!(engine.int_words(signed), &vec![u64::MAX, 0xff]);
    let unsigned = engine.create_int(72, u64::MAX, false);
    assert_eq!(engine.int_words(unsigned), &vec![u64::MAX, 0]);
    let positive = engine.create_int(200, 1 << 62, true);
    assert_eq!(engine.int_words(positive), &vec![1 << 62, 0, 0, 0]);
    let negative = engine.create_int(200, 1 << 63, true);
    assert_eq!(engine.int_words(negative), &vec![1 << 63, u64::MAX, u64::MAX, 0xff]);
    let none = engine.create_int(0, 7, false);
    assert_eq!(engine.int_words(none).len(), 0);
}

#[test]
fn written_words_are_cut_to_the_width_in_bytes() {
    let mut engine = Engine::new();
    let handle = engine.create_single(0);
    engine.set_int_words(handle, &[0x1122_3344_5566_7788, 0x99aa_bbcc_ddee_ff00], 3);
    assert_eq!(engine.int_width(handle), 24);
    assert_eq!(engine.int_words(handle), &vec![0x66_7788]);
    engine.set_int_words(handle, &[0x1122_3344_5566_7788, 0x99aa_bbcc_ddee_ff00], 10);
    assert_eq!(engine.int_width(handle), 80);
    assert_eq!(engine.int_words(handle), &vec![0x1122_3344_5566_7788, 0xff00]);
    engine.set_int_words(handle, &[1], 16);
    assert_eq!(engine.int_words(handle), &vec![1, 0]);
    engine.set_int_words(handle, &[1, 2, 3], 16);
    assert_eq!(engine.int_words(handle), &vec![1, 2]);
    engine.set_int_words(handle, &[], 0);
    assert_eq!(engine.int_width(handle), 0);
    assert_eq!(engine.int_words(handle).len(), 0);
}

#[test]
fn each_content_reads_back() {
    let mut engine = Engine::new();
    let data = engine.create_data(vec![1, 2, 3]);
    assert_eq!(engine.data(data), &vec![1, 2, 3]);
    let single = engine.create_single(0x3f80_0000);
    assert_eq!(engine.single_bits(single), 0x3f80_0000);
    let double = engine.create_double(0x3ff0_0000_0000_0000);
    assert_eq!(engine.double_bits(double), 0x3ff0_0000_0000_0000);
    let pointer = engine.create_pointer(4096);
    assert_eq!(engine.pointer(pointer), 4096);
    let meta = MiriPointer { addr: 1, alloc_id: 2, tag: 3 };
    let miri = engine.create_miri_pointer(meta);
    assert_eq!(engine.miri_pointer(miri), meta);
    engine.set_single_bits(data, 9);
    assert_eq!(engine.single_bits(data), 9);
    engine.set_double_bits(data, 10);
    assert_eq!(engine.double_bits(data), 10);
    engine.set_data(single, vec![7]);
    assert_eq!(engine.data(single), &vec![7]);
    engine.set_miri_pointer(double, meta);
    assert_eq!(engine.miri_pointer(double), meta);
    assert_eq!(engine.len(), 6);
}

#[test]
fn a_write_keeps_the_tag_and_a_tag_keeps_the_content() {
    let tag = BasicTypeEnum::IntType(IntType::i32_type());
    let mut engine = Engine::new();
    let handle = engine.create_int(32, 5, false);
    assert_eq!(engine.type_tag(handle), None);
    engine.set_type_tag(handle, &tag);
    assert_eq!(engine.int_words(handle), &vec![5]);
    engine.set_int_words(handle, &[6, 0], 4);
    assert_eq!(engine.type_tag(handle), Some(&tag));
    assert_eq!(engine.int_words(handle), &vec![6]);
}

#[test]
fn members_are_kept_in_the_order_appended() {
    let mut engine = Engine::new();
    let parent = engine.create_aggregate(2);
    assert_eq!(engine.aggregate_len(parent), 0);
    let first = engine.create_single(1);
    let second = engine.create_single(2);
    engine.append_member(parent, second);
    engine.append_member(parent, first);
    assert_eq!(engine.aggregate_len(parent), 2);
    assert_eq!(engine.member(parent, 0), second);
    assert_eq!(engine.member(parent, 1), first);
    assert!(engine.is_root(parent));
    assert!(!engine.is_root(first));
    assert!(!engine.is_root(second));
    assert_eq!(engine.aggregate_len(first), 0);
}

#[test]
fn a_family_is_released_together() {
    let mut engine = Engine::new();
    let outer = engine.create_aggregate(1);
    let inner = engine.create_aggregate(1);
    let leaf = engine.create_double(5);
    let other = engine.create_double(6);
    engine.append_member(inner, leaf);
    engine.append_member(outer, inner);
    assert!(engine.is_live(outer) && engine.is_live(inner) && engine.is_live(leaf));
    engine.dispose(outer);
    assert!(!engine.is_live(outer));
    assert!(!engine.is_live(inner));
    assert!(!engine.is_live(leaf));
    assert!(engine.is_live(other));
    assert_eq!(engine.release_count(outer), 1);
    assert_eq!(engine.release_count(inner), 0);
    assert_eq!(engine.release_count(other), 0);
}

#[test]
fn appending_to_a_member_joins_the_family_of_the_outermost() {
    let mut engine = Engine::new();
    let outer = engine.create_aggregate(1);
    let inner = engine.create_aggregate(1);
    engine.append_member(outer, inner);
    let late = engine.create_single(3);
    engine.append_member(inner, late);
    assert_eq!(engine.member(inner, 0), late);
    engine.dispose(outer);
    assert!(!engine.is_live(late));
}

#[test]
fn room_for_many_members_is_no_member() {
    let mut engine = Engine::new();
    let huge = engine.create_aggregate(u64::MAX);
    assert_eq!(engine.aggregate_len(huge), 0);
    assert_eq!(engine.room(huge), u64::MAX);
    engine.ensure_capacity(huge, u64::MAX);
    assert_eq!(engine.aggregate_len(huge), 0);
    engine.ensure_capacity(huge, 8);
    assert_eq!(engine.aggregate_len(huge), 0);
    assert_eq!(engine.room(huge), u64::MAX);
}

#[test]
fn room_is_the_most_that_was_asked_for() {
    let mut engine = Engine::new();
    let aggregate = engine.create_aggregate(3);
    assert_eq!(engine.room(aggregate), 3);
    engine.ensure_capacity(aggregate, 2);
    assert_eq!(engine.room(aggregate), 3);
    engine.ensure_capacity(aggregate, 3);
    assert_eq!(engine.room(aggregate), 3);
    engine.ensure_capacity(aggregate, 10);
    assert_eq!(engine.room(aggregate), 10);
    engine.ensure_capacity(aggregate, 0);
    assert_eq!(engine.room(aggregate), 10);
    assert_eq!(engine.aggregate_len(aggregate), 0);
}

#[test]
fn room_grows_with_the_members_where_it_is_full() {
    let mut engine = Engine::new();
    let aggregate = engine.create_aggregate(2);
    for expected in [2u64, 2, 3, 4] {
        let member = engine.create_single(0);
        engine.append_member(aggregate, member);
        assert_eq!(engine.room(aggregate), expected);
    }
    assert_eq!(engine.aggregate_len(aggregate), 4);
    let empty = engine.create_aggregate(0);
    assert_eq!(engine.room(empty), 0);
    let member = engine.create_single(0);
    engine.append_member(empty, member);
    assert_eq!(engine.room(empty), 1);
}

#[test]
fn room_is_kept_apart_from_what_a_resource_holds() {
    let mut engine = Engine::new();
    let scalar = engine.create_double(7);
    assert_eq!(engine.room(scalar), 0);
    engine.ensure_capacity(scalar, 5);
    assert_eq!(engine.room(scalar), 5);
    assert_eq!(engine.double_bits(scalar), 7);
    assert_eq!(engine.aggregate_len(scalar), 0);
    engine.set_single_bits(scalar, 1);
    assert_eq!(engine.room(scalar), 5);
    let other = engine.create_double(8);
    assert_eq!(engine.room(other), 0);
}
