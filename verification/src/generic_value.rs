//! Generic values: the host's handles on resources of the engine.
//!
//! A `GenericValueRef` is a view: it names a resource and never releases it,
//! so any number of views may name the same resource, and what is written
//! through one is read through the others. A `GenericValue` owns: it names a
//! resource that stands on its own, and handing it to `dispose` is the one
//! way in which that resource is released.
//!
//! A view outlives nothing: every operation asks that its resource has not
//! been released.

use crate::aggregate::field_handle;
use crate::aggregate::field_type;
use crate::aggregate::field_type_of;
use crate::aggregate::field_types_of;
use crate::aggregate::fields_typed;
use crate::aggregate::lemma_with_field_tags_frame;
use crate::aggregate::lemma_with_field_tags_none;
use crate::aggregate::lemma_with_field_tags_step;
use crate::aggregate::with_field_tags;
use crate::engine::bits_in_word;
use crate::engine::clipped_words;
use crate::engine::lemma_clipped_one_word;
use crate::engine::lemma_clipped_two_words;
use crate::engine::lemma_created;
use crate::engine::lemma_low_mask_is_mod;
use crate::engine::low_mask;
use crate::engine::sign_fill;
use crate::engine::tag_value;
use crate::engine::Content;
use crate::engine::Engine;
use crate::engine::EngineState;
use crate::engine::MiriPointer;
use crate::types::BasicTypeEnum;
use crate::types::IntType;
use crate::word_codec::decode_wide_int;
use crate::word_codec::encode_wide_int;
use crate::word_codec::lemma_two_word_round_trip;
use crate::word_codec::wide_value;
use crate::word_codec::wide_words;
use crate::word_codec::word_radix;
use vstd::arithmetic::div_mod::lemma_breakdown;
use vstd::arithmetic::div_mod::lemma_mod_mod;
use vstd::arithmetic::div_mod::lemma_mod_multiples_vanish;
use vstd::arithmetic::div_mod::lemma_small_mod;
use vstd::arithmetic::power2::lemma2_to64_rest;
use vstd::arithmetic::power2::lemma_pow2_adds;
use vstd::arithmetic::power2::lemma_pow2_pos;
use vstd::arithmetic::power2::pow2;
use vstd::endian::endianness;
use vstd::endian::Endian;
use vstd::prelude::*;

verus! {

/// Whether the resource at `handle` holds an integer and carries no tag
/// that says otherwise.
pub open spec fn reads_as_int(state: EngineState, handle: usize) -> bool {
    &&& state.content(handle) is Int
    &&& state.type_tag(handle) matches Some(tag) ==> tag is IntType
}

/// Whether the resource at `handle` holds a single-precision number and
/// carries no tag that says otherwise.
pub open spec fn reads_as_single(state: EngineState, handle: usize) -> bool {
    &&& state.content(handle) is Single
    &&& state.type_tag(handle) matches Some(tag) ==> tag is FloatType
}

/// Whether the resource at `handle` holds a double-precision number and
/// carries no tag that says otherwise.
pub open spec fn reads_as_double(state: EngineState, handle: usize) -> bool {
    &&& state.content(handle) is Double
    &&& state.type_tag(handle) matches Some(tag) ==> tag is FloatType
}

/// The bytes that the engine keeps of `bytes`: all of fewer than 2 to the 32,
/// and of more as many of the first as the low 32 bits of their number say.
pub open spec fn counted_bytes(bytes: Seq<u8>) -> Seq<u8> {
    bytes.take((bytes.len() % 0x1_0000_0000) as int)
}

/// The number that a 64-bit value stands for when it is read as signed or
/// as unsigned.
pub open spec fn extended(value: u64, signed: bool) -> int {
    if signed && value >= 0x8000_0000_0000_0000 {
        value - 0x1_0000_0000_0000_0000
    } else {
        value as int
    }
}

/// The number of bytes that an integer of `width` bits takes: the width
/// over eight, rounded up.
pub fn width_in_bytes(width: u32) -> (bytes: u32)
    ensures
        bytes == (width + 7) / 8,
{
    if width % 8 == 0 {
        width / 8
    } else {
        width / 8 + 1
    }
}

/// A view of a resource. It does not own the resource and never releases it.
#[derive(Debug, Clone, Copy, PartialEq, Eq, Structural)]
pub struct GenericValueRef {
    pub(crate) generic_value: usize,
}

impl GenericValueRef {
    /// The handle of the resource that this view names.
    pub closed spec fn handle(&self) -> usize {
        self.generic_value
    }

    /// Whether this view names a resource of `state` that has not been
    /// released.
    pub open spec fn valid(&self, state: EngineState) -> bool {
        state.wf() && state.live(self.handle())
    }

    /// A view of the resource at `generic_value`. The null handle names no
    /// resource and is not accepted.
    pub fn new(generic_value: usize) -> (view: GenericValueRef)
        requires
            generic_value != 0,
        ensures
            view.handle() == generic_value,
    {
        GenericValueRef { generic_value }
    }

    /// The type that the tag of this value gives to its field at `index`.
    fn get_field_type<'ctx>(&self, engine: &Engine<'ctx>, index: u64) -> (ty: Option<
        &'ctx BasicTypeEnum,
    >)
        requires
            self.valid(engine@),
        ensures
            tag_value(ty) == field_type(engine@.type_tag(self.handle()), index),
    {
        field_type_of(self.get_type_tag(engine), index)
    }

    /// The type tag of this value, or none if none was ever attached.
    pub fn get_type_tag<'ctx>(&self, engine: &Engine<'ctx>) -> (tag: Option<&'ctx BasicTypeEnum>)
        requires
            self.valid(engine@),
        ensures
            tag_value(tag) == engine@.type_tag(self.handle()),
    {
        engine.type_tag(self.generic_value)
    }

    /// The type tag of this value, which must have one.
    pub fn assert_type_tag<'ctx>(&self, engine: &Engine<'ctx>) -> (tag: &'ctx BasicTypeEnum)
        requires
            self.valid(engine@),
            engine@.type_tag(self.handle()) is Some,
        ensures
            engine@.type_tag(self.handle()) == Some(*tag),
    {
        match self.get_type_tag(engine) {
            Some(tag) => tag,
            None => vstd::pervasive::unreached(),
        }
    }

    /// Attaches `bte` to this value as its type tag. Nothing is asked of how
    /// the tag fits what the value holds.
    pub fn set_type_tag<'ctx>(&self, engine: &mut Engine<'ctx>, bte: &'ctx BasicTypeEnum)
        requires
            self.valid(old(engine)@),
        ensures
            final(engine)@ == old(engine)@.with_type_tag(self.handle(), *bte),
            final(engine)@.wf(),
    {
        engine.set_type_tag(self.generic_value, bte);
    }

    /// The pointer of the memory-safety checker that this value holds.
    pub fn as_miri_pointer<'ctx>(&self, engine: &Engine<'ctx>) -> (pointer: MiriPointer)
        requires
            self.valid(engine@),
            engine@.content(self.handle()) is Miri,
        ensures
            engine@.content(self.handle()) == Content::Miri(pointer),
    {
        engine.miri_pointer(self.generic_value)
    }

    /// The width in bits of the integer that this value holds.
    pub fn int_width<'ctx>(&self, engine: &Engine<'ctx>) -> (width: u32)
        requires
            self.valid(engine@),
            reads_as_int(engine@, self.handle()),
        ensures
            width == engine@.content(self.handle())->width,
    {
        engine.int_width(self.generic_value)
    }

    /// The number of bytes that the integer of this value takes: its width
    /// in bits over eight, rounded up.
    pub fn int_width_bytes<'ctx>(&self, engine: &Engine<'ctx>) -> (bytes: u32)
        requires
            self.valid(engine@),
            reads_as_int(engine@, self.handle()),
        ensures
            bytes == (engine@.content(self.handle())->width + 7) / 8,
    {
        width_in_bytes(engine.int_width(self.generic_value))
    }

    /// The integer that this value holds. An integer wider than 128 bits
    /// has no such reading and is not accepted.
    pub fn as_int<'ctx>(&self, engine: &Engine<'ctx>) -> (value: u128)
        requires
            self.valid(engine@),
            reads_as_int(engine@, self.handle()),
            1 <= engine@.content(self.handle())->width <= 128,
        ensures
            value as nat == wide_value(endianness(), engine@.content(self.handle())->words),
    {
        proof {
            lemma_int_within_width(engine@, self.handle());
        }
        let words = engine.int_words(self.generic_value);
        decode_wide_int(words.as_slice())
    }

    /// The bits of the single-precision number that this value holds.
    pub fn as_f32<'ctx>(&self, engine: &Engine<'ctx>) -> (bits: u32)
        requires
            self.valid(engine@),
            reads_as_single(engine@, self.handle()),
        ensures
            engine@.content(self.handle()) == Content::Single(bits),
    {
        engine.single_bits(self.generic_value)
    }

    /// The bits of the double-precision number that this value holds.
    pub fn as_f64<'ctx>(&self, engine: &Engine<'ctx>) -> (bits: u64)
        requires
            self.valid(engine@),
            reads_as_double(engine@, self.handle()),
        ensures
            engine@.content(self.handle()) == Content::Double(bits),
    {
        engine.double_bits(self.generic_value)
    }

    /// Overwrites what this value holds with a single-precision number,
    /// given by its bits. The type tag is neither read nor changed.
    pub fn set_float_value<'ctx>(&mut self, engine: &mut Engine<'ctx>, float: u32)
        requires
            old(self).valid(old(engine)@),
        ensures
            *final(self) == *old(self),
            final(engine)@ == old(engine)@.with_content(old(self).handle(), Content::Single(float)),
            final(engine)@.wf(),
    {
        engine.set_single_bits(self.generic_value, float);
    }

    /// Overwrites what this value holds with a double-precision number,
    /// given by its bits. The type tag is neither read nor changed.
    pub fn set_double_value<'ctx>(&mut self, engine: &mut Engine<'ctx>, double: u64)
        requires
            old(self).valid(old(engine)@),
        ensures
            *final(self) == *old(self),
            final(engine)@ == old(engine)@.with_content(
                old(self).handle(),
                Content::Double(double),
            ),
            final(engine)@.wf(),
    {
        engine.set_double_bits(self.generic_value, double);
    }

    /// Overwrites what this value holds with an integer of `bytes` bytes.
    /// `value` is written as two words, of which the engine keeps what the
    /// width takes. The type tag is neither read nor changed.
    pub fn set_int_value<'ctx>(&mut self, engine: &mut Engine<'ctx>, value: u128, bytes: u64)
        requires
            old(self).valid(old(engine)@),
            8 * bytes <= u32::MAX,
        ensures
            *final(self) == *old(self),
            final(engine)@ == old(engine)@.with_content(
                old(self).handle(),
                Content::Int {
                    words: clipped_words(
                        wide_words(endianness(), value as nat),
                        0,
                        (8 * bytes) as u32,
                    ),
                    width: (8 * bytes) as u32,
                },
            ),
            final(engine)@.wf(),
    {
        let value_slice: Vec<u64> = encode_wide_int(value);
        engine.set_int_words(self.generic_value, value_slice.as_slice(), bytes);
    }

    /// Overwrites what this value holds with raw bytes. There may be fewer
    /// than 2 to the 32 of them. The type tag is neither read nor changed.
    pub fn set_bytes<'ctx>(&mut self, engine: &mut Engine<'ctx>, bytes: &[u8])
        requires
            old(self).valid(old(engine)@),
            bytes@.len() <= u32::MAX,
        ensures
            *final(self) == *old(self),
            final(engine)@ == old(engine)@.with_content(old(self).handle(), Content::Data(bytes@)),
            final(engine)@.wf(),
    {
        engine.set_data(self.generic_value, vstd::slice::slice_to_vec(bytes));
    }

    /// Overwrites what this value holds with a pointer of the memory-safety
    /// checker. The type tag is neither read nor changed.
    pub fn set_miri_pointer_value<'ctx>(&mut self, engine: &mut Engine<'ctx>, value: MiriPointer)
        requires
            old(self).valid(old(engine)@),
        ensures
            *final(self) == *old(self),
            final(engine)@ == old(engine)@.with_content(old(self).handle(), Content::Miri(value)),
            final(engine)@.wf(),
    {
        engine.set_miri_pointer(self.generic_value, value);
    }

    /// Appends `val` to this aggregate as its last member. The value is
    /// used up: its resource from then on belongs to the aggregate and is
    /// released with it.
    pub fn append_aggregate_value<'ctx>(&mut self, engine: &mut Engine<'ctx>, val: GenericValue)
        requires
            old(self).valid(old(engine)@),
            old(engine)@.content(old(self).handle()) is Aggregate,
            val.owned(old(engine)@),
            old(engine)@.owner(old(self).handle()) != val.handle(),
        ensures
            *final(self) == *old(self),
            final(engine)@ == old(engine)@.adopted(old(self).handle(), val.handle()),
            final(engine)@.wf(),
    {
        let val: usize = val.into_raw();
        engine.append_member(self.generic_value, val);
    }

    /// All fields of this aggregate, each a view of one member that carries
    /// the type of its field as its tag; or nothing, with no tag attached to
    /// any member, where some field has no type.
    pub fn get_fields<'ctx>(&self, engine: &mut Engine<'ctx>) -> (fields: Option<
        Vec<GenericValueRef>,
    >)
        requires
            self.valid(old(engine)@),
        ensures
            final(engine)@.wf(),
            fields is Some <==> fields_typed(
                old(engine)@.type_tag(self.handle()),
                old(engine)@.content(self.handle()).member_count(),
            ),
            fields matches Some(views) ==> {
                &&& views@.len() == old(engine)@.content(self.handle()).member_count()
                &&& forall|i: int|
                    0 <= i < views@.len() ==> (#[trigger] views@[i]).handle() == old(
                        engine,
                    )@.content(self.handle()).members()[i]
                &&& final(engine)@ == with_field_tags(
                    old(engine)@,
                    self.handle(),
                    old(engine)@.content(self.handle()).member_count(),
                )
            },
            fields is None ==> final(engine)@ == old(engine)@,
    {
        let ghost before = engine@;
        let ghost tag = before.type_tag(self.handle());
        let ghost members = before.content(self.handle()).members();
        let size: u64 = self.get_aggregate_size(engine);
        let field_array: Vec<&'ctx BasicTypeEnum> = match field_types_of(
            self.get_type_tag(engine),
            size,
        ) {
            Some(field_array) => field_array,
            None => {
                return None;
            },
        };
        proof {
            lemma_with_field_tags_none(before, self.handle());
        }
        let mut views: Vec<GenericValueRef> = Vec::new();
        let mut done: usize = 0;
        while done < field_array.len()
            invariant
                self.valid(before),
                tag == before.type_tag(self.handle()),
                members == before.content(self.handle()).members(),
                field_array@.len() == size,
                size == members.len(),
                done <= field_array@.len(),
                engine@ == with_field_tags(before, self.handle(), done as nat),
                engine@.wf(),
                views@.len() == done,
                forall|i: int| 0 <= i < done ==> (#[trigger] views@[i]).handle() == members[i],
                forall|i: int|
                    0 <= i < size ==> field_type(tag, i as u64) == Some(
                        *#[trigger] field_array@[i],
                    ),
            decreases field_array@.len() - done,
        {
            proof {
                lemma_with_field_tags_frame(before, self.handle(), done as nat);
                assert(engine@.live(self.handle()) == before.live(self.handle()));
                assert(engine@.content(self.handle()) == before.content(self.handle()));
            }
            let member: usize = engine.member(self.generic_value, done as u64);
            let field = GenericValueRef::new(member);
            field.set_type_tag(engine, field_array[done]);
            proof {
                lemma_with_field_tags_step(
                    before,
                    self.handle(),
                    done as nat,
                    *field_array@[done as int],
                );
            }
            views.push(field);
            done = done + 1;
        }
        Some(views)
    }

    /// All fields of this aggregate, each of which must have a type.
    pub fn assert_fields<'ctx>(&self, engine: &mut Engine<'ctx>) -> (views: Vec<GenericValueRef>)
        requires
            self.valid(old(engine)@),
            fields_typed(
                old(engine)@.type_tag(self.handle()),
                old(engine)@.content(self.handle()).member_count(),
            ),
        ensures
            final(engine)@.wf(),
            views@.len() == old(engine)@.content(self.handle()).member_count(),
            forall|i: int|
                0 <= i < views@.len() ==> (#[trigger] views@[i]).handle() == old(
                    engine,
                )@.content(self.handle()).members()[i],
            final(engine)@ == with_field_tags(
                old(engine)@,
                self.handle(),
                old(engine)@.content(self.handle()).member_count(),
            ),
    {
        match self.get_fields(engine) {
            Some(views) => views,
            None => vstd::pervasive::unreached(),
        }
    }

    /// The field at `index` of this aggregate: a view of that member, which
    /// from then on carries the type of the field as its tag. There is none,
    /// and nothing changes, where the tag of this value gives the field no
    /// type or the aggregate has no member at `index`.
    pub fn get_field<'ctx>(&self, engine: &mut Engine<'ctx>, index: u64) -> (field: Option<
        GenericValueRef,
    >)
        requires
            self.valid(old(engine)@),
        ensures
            final(engine)@.wf(),
            field is Some <==> field_handle(old(engine)@, self.handle(), index) is Some,
            field matches Some(view) ==> {
                &&& field_handle(old(engine)@, self.handle(), index) == Some(view.handle())
                &&& final(engine)@ == old(engine)@.with_type_tag(
                    view.handle(),
                    field_type(old(engine)@.type_tag(self.handle()), index)->0,
                )
                &&& view.valid(final(engine)@)
            },
            field is None ==> final(engine)@ == old(engine)@,
    {
        let len: u64 = self.get_aggregate_size(engine);
        if let Some(field_type) = self.get_field_type(engine, index) {
            if index < len {
                let member: usize = engine.member(self.generic_value, index);
                let field = GenericValueRef::new(member);
                field.set_type_tag(engine, field_type);
                proof {
                    let before = old(engine)@;
                    let after = engine@;
                    assert(before.resources[member as int].owner == before.owner(member));
                    assert(before.resources[before.owner(member) as int].owner == before.owner(
                        member,
                    ));
                    assert(after.owner(member) == before.owner(member));
                    assert(after.releases(before.owner(member)) == before.releases(
                        before.owner(member),
                    ));
                }
                return Some(field);
            }
        }
        None
    }

    /// The field at `index` of this aggregate, which must have one with a
    /// type.
    pub fn assert_field<'ctx>(&self, engine: &mut Engine<'ctx>, index: u64) -> (view:
        GenericValueRef)
        requires
            self.valid(old(engine)@),
            field_handle(old(engine)@, self.handle(), index) is Some,
        ensures
            final(engine)@.wf(),
            field_handle(old(engine)@, self.handle(), index) == Some(view.handle()),
            final(engine)@ == old(engine)@.with_type_tag(
                view.handle(),
                field_type(old(engine)@.type_tag(self.handle()), index)->0,
            ),
            view.valid(final(engine)@),
    {
        if let Some(field) = self.get_field(engine, index) {
            field
        } else {
            vstd::pervasive::unreached()
        }
    }

    /// The number of members of this aggregate. A value that is no
    /// aggregate has none.
    pub fn get_aggregate_size<'ctx>(&self, engine: &Engine<'ctx>) -> (size: u64)
        requires
            self.valid(engine@),
        ensures
            size == engine@.content(self.handle()).member_count(),
    {
        engine.aggregate_len(self.generic_value)
    }

    /// Makes room for `capacity` members: from then on the value has room
    /// for that many, or for as many as before where that was more. What
    /// the value holds stays as it is.
    pub fn ensure_capacity<'ctx>(&self, engine: &mut Engine<'ctx>, capacity: u64)
        requires
            self.valid(old(engine)@),
        ensures
            final(engine)@ == old(engine)@.with_room_for(self.handle(), capacity as nat),
            final(engine)@.wf(),
    {
        engine.ensure_capacity(self.generic_value, capacity);
    }

    /// The address of the host that this value holds.
    pub fn into_pointer<'ctx>(&self, engine: &Engine<'ctx>) -> (address: usize)
        requires
            self.valid(engine@),
            engine@.content(self.handle()) is Pointer,
        ensures
            engine@.content(self.handle()) == Content::Pointer(address),
    {
        engine.pointer(self.generic_value)
    }

    /// The handle of the resource that this view names.
    pub fn into_raw(self) -> (raw: usize)
        ensures
            raw == self.handle(),
    {
        self.generic_value
    }
}

/// An owned generic value: the one owner of a resource that stands on its
/// own.
#[derive(Debug)]
pub struct GenericValue {
    pub(crate) generic_value_ref: GenericValueRef,
}

impl GenericValue {
    /// The handle of the resource that this value owns.
    pub closed spec fn handle(&self) -> usize {
        self.generic_value_ref.generic_value
    }

    /// Whether this value owns a resource of `state`: one that stands on
    /// its own and has not been released.
    pub open spec fn owned(&self, state: EngineState) -> bool {
        state.wf() && state.live(self.handle()) && state.is_root(self.handle())
    }

    pub(crate) fn new(generic_value: usize) -> (value: Self)
        requires
            generic_value != 0,
        ensures
            value.handle() == generic_value,
    {
        GenericValue { generic_value_ref: GenericValueRef::new(generic_value) }
    }

    /// The void value: a new resource that holds no bytes.
    pub fn new_void<'ctx>(engine: &mut Engine<'ctx>) -> (value: Self)
        requires
            old(engine)@.wf(),
        ensures
            final(engine)@ == old(engine)@.created(Content::Data(Seq::empty())),
            value.handle() == old(engine)@.len(),
            value.owned(final(engine)@),
    {
        let empty: Vec<u8> = Vec::new();
        let v_ref: usize = engine.create_data(empty);
        GenericValue::new(v_ref)
    }

    /// A new aggregate without members, with room for `members` of them.
    pub fn new_aggregate<'ctx>(engine: &mut Engine<'ctx>, members: u64) -> (value: Self)
        requires
            old(engine)@.wf(),
        ensures
            final(engine)@ == old(engine)@.created(
                Content::Aggregate(Seq::empty()),
            ).with_room_for(value.handle(), members as nat),
            value.handle() == old(engine)@.len(),
            value.owned(final(engine)@),
    {
        let value: usize = engine.create_aggregate(members);
        GenericValue::new(value)
    }

    /// A new single-precision number, given by its bits.
    pub fn new_f32<'ctx>(engine: &mut Engine<'ctx>, value: u32) -> (made: Self)
        requires
            old(engine)@.wf(),
        ensures
            final(engine)@ == old(engine)@.created(Content::Single(value)),
            made.handle() == old(engine)@.len(),
            made.owned(final(engine)@),
    {
        let v_ref: usize = engine.create_single(value);
        GenericValue::new(v_ref)
    }

    /// A new double-precision number, given by its bits.
    pub fn new_f64<'ctx>(engine: &mut Engine<'ctx>, value: u64) -> (made: Self)
        requires
            old(engine)@.wf(),
        ensures
            final(engine)@ == old(engine)@.created(Content::Double(value)),
            made.handle() == old(engine)@.len(),
            made.owned(final(engine)@),
    {
        let v_ref: usize = engine.create_double(value);
        GenericValue::new(v_ref)
    }

    /// A new integer of the width of `int_type`: `value`, continued by its
    /// sign where `is_signed` is set, cut to that width.
    pub fn new_int<'ctx>(
        engine: &mut Engine<'ctx>,
        value: u64,
        int_type: &IntType,
        is_signed: bool,
    ) -> (made: Self)
        requires
            old(engine)@.wf(),
        ensures
            final(engine)@ == old(engine)@.created(
                Content::Int {
                    words: clipped_words(
                        seq![value],
                        sign_fill(value, is_signed),
                        int_type.bit_width,
                    ),
                    width: int_type.bit_width,
                },
            ),
            made.handle() == old(engine)@.len(),
            made.owned(final(engine)@),
    {
        let v_ref: usize = engine.create_int(int_type.get_bit_width(), value, is_signed);
        GenericValue::new(v_ref)
    }

    /// A new value that holds a copy of `bytes`. The engine counts bytes in
    /// 32 bits: of a longer slice it keeps as many of the first bytes as the
    /// low 32 bits of the length say.
    pub fn from_byte_slice<'ctx>(engine: &mut Engine<'ctx>, bytes: &[u8]) -> (made: Self)
        requires
            old(engine)@.wf(),
        ensures
            final(engine)@ == old(engine)@.created(Content::Data(counted_bytes(bytes@))),
            made.handle() == old(engine)@.len(),
            made.owned(final(engine)@),
    {
        let length: u64 = bytes.len() as u64;
        let counted: u32 = #[verifier::truncate] (length as u32);
        proof {
            assert(counted as u64 == length % 0x1_0000_0000) by (bit_vector)
                requires
                    counted == length as u32,
            ;
        }
        let kept: &[u8] = vstd::slice::slice_subrange(bytes, 0, counted as usize);
        let value: usize = engine.create_data(vstd::slice::slice_to_vec(kept));
        GenericValue::new(value)
    }

    /// A new value that holds an address of the host.
    pub fn create_generic_value_of_pointer<'ctx>(engine: &mut Engine<'ctx>, value: usize) -> (made:
        Self)
        requires
            old(engine)@.wf(),
        ensures
            final(engine)@ == old(engine)@.created(Content::Pointer(value)),
            made.handle() == old(engine)@.len(),
            made.owned(final(engine)@),
    {
        let value: usize = engine.create_pointer(value);
        GenericValue::new(value)
    }

    /// A new value that holds a pointer of the memory-safety checker.
    pub fn create_generic_value_of_miri_pointer<'ctx>(
        engine: &mut Engine<'ctx>,
        meta: MiriPointer,
    ) -> (made: Self)
        requires
            old(engine)@.wf(),
        ensures
            final(engine)@ == old(engine)@.created(Content::Miri(meta)),
            made.handle() == old(engine)@.len(),
            made.owned(final(engine)@),
    {
        let value: usize = engine.create_miri_pointer(meta);
        GenericValue::new(value)
    }

    /// Releases the resource that this value owns, and with it all that
    /// belongs to it. The value is used up, so no resource is released
    /// twice through its owner.
    pub fn dispose<'ctx>(self, engine: &mut Engine<'ctx>)
        requires
            self.owned(old(engine)@),
        ensures
            final(engine)@ == old(engine)@.released(self.handle()),
            final(engine)@.wf(),
            !final(engine)@.live(self.handle()),
            final(engine)@.releases(self.handle()) == 1,
    {
        engine.dispose(self.generic_value_ref.generic_value);
    }

    /// The view inside this value, for writing through it.
    pub fn as_mut(&mut self) -> (view: &mut GenericValueRef)
        ensures
            view.handle() == old(self).handle(),
            final(self).handle() == final(view).handle(),
    {
        &mut self.generic_value_ref
    }

    /// A view of the resource that this value owns.
    pub fn as_ref(&self) -> (view: &GenericValueRef)
        ensures
            view.handle() == self.handle(),
    {
        &self.generic_value_ref
    }

    /// Gives up the resource without releasing it and returns its handle.
    pub fn into_raw(self) -> (raw: usize)
        ensures
            raw == self.handle(),
    {
        self.generic_value_ref.generic_value
    }

    /// Takes the resource at `value` as its owner. The null handle names no
    /// resource and is not accepted.
    pub fn from_raw(value: usize) -> (owned: Self)
        requires
            value != 0,
        ensures
            owned.handle() == value,
    {
        GenericValue::new(value)
    }
}

/// A run of generic values that the engine hands over together, such as the
/// arguments of a call.
#[derive(Debug)]
pub struct GenericValueArrayRef {
    pub(crate) generic_value_array: Vec<GenericValueRef>,
}

impl GenericValueArrayRef {
    /// The views in their order.
    pub closed spec fn elements(&self) -> Seq<GenericValueRef> {
        self.generic_value_array@
    }

    /// The run of the given views.
    pub fn new(array_ref: Vec<GenericValueRef>) -> (array: GenericValueArrayRef)
        ensures
            array.elements() == array_ref@,
    {
        GenericValueArrayRef { generic_value_array: array_ref }
    }

    pub fn len(&self) -> (len: u64)
        ensures
            len == self.elements().len(),
    {
        self.generic_value_array.len() as u64
    }

    /// The view at `index`, or none where the run is no longer than that.
    pub fn get_element_at(&self, index: u64) -> (element: Option<GenericValueRef>)
        ensures
            element == if index < self.elements().len() {
                Some(self.elements()[index as int])
            } else {
                None
            },
    {
        let len: usize = self.generic_value_array.len();
        if index < len as u64 {
            Some(self.generic_value_array[index as usize])
        } else {
            None
        }
    }
}

/// No operation on a view releases anything: overwriting content,
/// attaching a tag and appending a member leave the count of releases of
/// every resource as it was.
pub proof fn lemma_views_release_nothing(
    state: EngineState,
    handle: usize,
    content: Content,
    tag: BasicTypeEnum,
    child: usize,
)
    requires
        handle < state.len(),
    ensures
        forall|h: usize|
            h < state.len() ==> {
                &&& (#[trigger] state.with_content(handle, content).releases(h))
                    == state.releases(h)
                &&& state.with_type_tag(handle, tag).releases(h) == state.releases(h)
                &&& state.adopted(handle, child).releases(h) == state.releases(h)
            },
{
}

/// A single-precision number that a value was made with is what the
/// accessor of that precision reads from it, bit for bit.
pub proof fn lemma_single_round_trip(state: EngineState, bits: u32)
    requires
        state.wf(),
        state.len() <= usize::MAX,
    ensures
        state.created(Content::Single(bits)).wf(),
        state.created(Content::Single(bits)).live(state.len() as usize),
        reads_as_single(state.created(Content::Single(bits)), state.len() as usize),
        state.created(Content::Single(bits)).content(state.len() as usize) == Content::Single(bits),
{
    lemma_created(state, Content::Single(bits));
}

/// A double-precision number that a value was made with is what the
/// accessor of that precision reads from it, bit for bit.
pub proof fn lemma_double_round_trip(state: EngineState, bits: u64)
    requires
        state.wf(),
        state.len() <= usize::MAX,
    ensures
        state.created(Content::Double(bits)).wf(),
        state.created(Content::Double(bits)).live(state.len() as usize),
        reads_as_double(state.created(Content::Double(bits)), state.len() as usize),
        state.created(Content::Double(bits)).content(state.len() as usize) == Content::Double(bits),
{
    lemma_created(state, Content::Double(bits));
}

/// A number written over what a value holds is what the accessor of the
/// same precision reads from it, bit for bit, where no tag says that the
/// value is no floating-point number.
pub proof fn lemma_float_write_round_trip(
    state: EngineState,
    handle: usize,
    single: u32,
    double: u64,
)
    requires
        state.wf(),
        state.live(handle),
        state.type_tag(handle) matches Some(tag) ==> tag is FloatType,
    ensures
        reads_as_single(state.with_content(handle, Content::Single(single)), handle),
        state.with_content(handle, Content::Single(single)).content(handle) == Content::Single(
            single,
        ),
        reads_as_double(state.with_content(handle, Content::Double(double)), handle),
        state.with_content(handle, Content::Double(double)).content(handle) == Content::Double(
            double,
        ),
{
}

/// An integer that the engine keeps at a width of 1 to 128 bits has one
/// or two words, and on a little-endian machine these are read as a number
/// below 2 to the power of the width.
pub proof fn lemma_int_within_width(state: EngineState, handle: usize)
    requires
        state.wf(),
        0 < handle < state.len(),
        state.content(handle) is Int,
        1 <= state.content(handle)->width <= 128,
    ensures
        1 <= state.content(handle)->words.len() <= 2,
        state.content(handle)->words.len() == 1 <==> state.content(handle)->width <= 64,
        wide_value(Endian::Little, state.content(handle)->words) < pow2(
            state.content(handle)->width as nat,
        ),
{
    let words = state.content(handle)->words;
    let width = state.content(handle)->width;
    assert(state.resource_wf(handle as int));
    assert(words == clipped_words(words, 0, width));
    lemma2_to64_rest();
    if width <= 64 {
        assert(words.len() == 1);
        assert(bits_in_word(width, 0) == width);
        assert(words[0] == words[0] & low_mask(width as nat));
        lemma_low_mask_is_mod(words[0], width as nat);
        lemma_pow2_pos(width as nat);
    } else {
        let above = (width - 64) as nat;
        assert(words.len() == 2);
        assert(bits_in_word(width, 1) == above);
        assert(words[1] == words[1] & low_mask(above));
        lemma_low_mask_is_mod(words[1], above);
        lemma_pow2_pos(above);
        lemma_pow2_adds(64, above);
        let radix = word_radix();
        let top = words[1] as nat;
        let bound = pow2(above);
        assert(words[0] + radix * top < radix * bound) by (nonlinear_arith)
            requires
                words[0] < radix,
                top < bound,
                radix > 0,
        ;
    }
}

/// An integer written with a width of sixteen bytes is read back as it was
/// written, whatever the byte order of the machine.
pub proof fn lemma_int_round_trip(order: Endian, value: u128)
    ensures
        clipped_words(wide_words(order, value as nat), 0, 128) == wide_words(order, value as nat),
        wide_value(order, clipped_words(wide_words(order, value as nat), 0, 128)) == value,
{
    lemma_two_word_round_trip(order, value as nat);
    lemma_clipped_two_words(wide_words(order, value as nat), 0);
}

/// On a little-endian machine an integer below 2 to the 64 written with a
/// width of eight bytes is kept as one word and read back as it was
/// written.
pub proof fn lemma_int_round_trip_one_word(value: u128)
    requires
        value < 0x1_0000_0000_0000_0000,
    ensures
        clipped_words(wide_words(Endian::Little, value as nat), 0, 64).len() == 1,
        wide_value(
            Endian::Little,
            clipped_words(wide_words(Endian::Little, value as nat), 0, 64),
        ) == value,
{
    lemma_clipped_one_word(wide_words(Endian::Little, value as nat), 0);
}

/// On a little-endian machine an integer written with a width of one to
/// sixteen bytes is read back modulo 2 to the power of that width in bits.
pub proof fn lemma_int_write_reads_back(value: u128, bytes: u64)
    requires
        1 <= bytes <= 16,
    ensures
        1 <= clipped_words(wide_words(Endian::Little, value as nat), 0, (8 * bytes) as u32).len()
            <= 2,
        wide_value(
            Endian::Little,
            clipped_words(wide_words(Endian::Little, value as nat), 0, (8 * bytes) as u32),
        ) == value as nat % pow2((8 * bytes) as nat),
{
    let width = (8 * bytes) as u32;
    let raw = wide_words(Endian::Little, value as nat);
    let kept = clipped_words(raw, 0, width);
    let radix = word_radix();
    let low = raw[0];
    let high = raw[1];
    lemma2_to64_rest();
    assert(pow2(64) == radix);
    assert(low as nat == value as nat % radix);
    assert(high as nat == (value as nat / radix) % radix);
    assert(value as nat / radix < radix);
    assert(high as nat == value as nat / radix);
    if width <= 64 {
        assert(kept.len() == 1);
        assert(bits_in_word(width, 0) == width);
        lemma_low_mask_is_mod(low, width as nat);
        assert(kept[0] == low & low_mask(width as nat));
        let rest = (64 - width) as nat;
        lemma_pow2_adds(width as nat, rest);
        lemma_pow2_pos(width as nat);
        lemma_pow2_pos(rest);
        lemma_mod_mod(value as int, pow2(width as nat) as int, pow2(rest) as int);
    } else {
        let above = (width - 64) as nat;
        assert(kept.len() == 2);
        assert(bits_in_word(width, 0) == 64);
        assert(bits_in_word(width, 1) == above);
        lemma_low_mask_is_mod(low, 64);
        lemma_low_mask_is_mod(high, above);
        assert(kept[0] == low & low_mask(64));
        assert(kept[1] == high & low_mask(above));
        lemma_pow2_adds(64, above);
        lemma_pow2_pos(above);
        lemma_breakdown(value as int, radix as int, pow2(above) as int);
    }
}

/// An integer made at a width of 1 to 128 bits is read back as the value
/// it was made with, signed or unsigned as it was given, modulo 2 to the
/// power of the width. An integer of more than one word is read so on a
/// little-endian machine.
pub proof fn lemma_new_int_reads_back(order: Endian, value: u64, signed: bool, width: u32)
    requires
        1 <= width <= 128,
        width > 64 ==> order == Endian::Little,
    ensures
        1 <= clipped_words(seq![value], sign_fill(value, signed), width).len() <= 2,
        wide_value(order, clipped_words(seq![value], sign_fill(value, signed), width)) == extended(
            value,
            signed,
        ) % (pow2(width as nat) as int),
{
    let fill = sign_fill(value, signed);
    let kept = clipped_words(seq![value], fill, width);
    let radix = word_radix() as int;
    let modulus = pow2(width as nat) as int;
    lemma2_to64_rest();
    lemma_pow2_pos(width as nat);
    if width <= 64 {
        let rest = (64 - width) as nat;
        assert(kept.len() == 1);
        assert(bits_in_word(width, 0) == width);
        lemma_low_mask_is_mod(value, width as nat);
        assert(kept[0] == value & low_mask(width as nat));
        lemma_pow2_adds(width as nat, rest);
        lemma_pow2_pos(rest);
        assert(radix == modulus * pow2(rest));
        lemma_mod_multiples_vanish(-(pow2(rest) as int), value as int, modulus);
        assert(modulus * (-(pow2(rest) as int)) == -radix) by (nonlinear_arith)
            requires
                radix == modulus * pow2(rest),
        ;
    } else {
        let above = (width - 64) as nat;
        assert(kept.len() == 2);
        assert(bits_in_word(width, 0) == 64);
        assert(bits_in_word(width, 1) == above);
        lemma_low_mask_is_mod(value, 64);
        lemma_low_mask_is_mod(fill, above);
        assert(kept[0] == value & low_mask(64));
        assert(kept[1] == fill & low_mask(above));
        lemma_pow2_adds(64, above);
        lemma_pow2_pos(above);
        assert(modulus == radix * pow2(above));
        assert(modulus >= radix) by (nonlinear_arith)
            requires
                modulus == radix * pow2(above),
                pow2(above) >= 1,
                radix > 0,
        ;
        if fill == 0 {
            assert(0u64 & low_mask(above) == 0) by (bit_vector);
            lemma_small_mod(value as nat, modulus as nat);
        } else {
            let mask = low_mask(above);
            assert(u64::MAX & mask == mask) by (bit_vector);
            assert(kept[1] as int == pow2(above) - 1) by {
                if above == 64 {
                } else {
                }
            }
            let shown = value + radix * (pow2(above) - 1);
            assert(shown == value - radix + modulus) by (nonlinear_arith)
                requires
                    shown == value + radix * (pow2(above) - 1),
                    modulus == radix * pow2(above),
            ;
            lemma_mod_multiples_vanish(1, value - radix, modulus);
            lemma_small_mod(shown as nat, modulus as nat);
        }
    }
}

} // verus!
