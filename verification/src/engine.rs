//! The memory in which the execution engine keeps generic values.
//!
//! Every generic value is a resource of the engine, known to the host by a
//! handle. A resource carries no shape of its own: it holds raw content and,
//! once the host has attached one, a type tag that says how to read it. An
//! aggregate holds other resources as its members; a member lives inside its
//! aggregate and is released with it. Room for members is asked for ahead of
//! them and grows where an aggregate is full.
//!
//! `Engine` keeps that memory as plain data, so that what each operation of
//! the engine does to it can be stated and what the marshaling code builds on
//! it can be proved. `EngineState` is what a contract sees of it.

use crate::types::BasicTypeEnum;
use vstd::arithmetic::power2::lemma2_to64_rest;
use vstd::arithmetic::power2::pow2;
use vstd::bits::lemma_u64_low_bits_mask_is_mod;
use vstd::bits::lemma_u64_pow2_no_overflow;
use vstd::bits::lemma_u64_shl_is_mul;
use vstd::bits::low_bits_mask;
use vstd::prelude::*;

verus! {

/// A pointer as the memory-safety checker knows it: an address, the
/// allocation it points into and the tag of the borrow it came from.
#[derive(Debug, Clone, Copy, PartialEq, Eq, Structural)]
pub struct MiriPointer {
    pub addr: u64,
    pub alloc_id: u64,
    pub tag: u64,
}

/// What a resource holds.
pub enum Content {
    /// Raw bytes. The void value holds none.
    Data(Seq<u8>),
    /// An integer: its words as the engine keeps them, and its width in bits.
    Int { words: Seq<u64>, width: u32 },
    /// A single-precision number, by its bits.
    Single(u32),
    /// A double-precision number, by its bits.
    Double(u64),
    /// An address of the host.
    Pointer(usize),
    /// A pointer of the memory-safety checker.
    Miri(MiriPointer),
    /// An aggregate: the handles of its members in order.
    Aggregate(Seq<usize>),
}

/// One resource as a contract sees it.
pub struct Resource {
    /// The handle of the independent resource that this one belongs to:
    /// its own handle, or that of the aggregate it was appended to, or of
    /// the aggregate that one belongs to.
    pub owner: usize,
    /// How often the resource has been released.
    pub releases: nat,
    /// The type tag, once one was attached.
    pub type_tag: Option<BasicTypeEnum>,
    pub content: Content,
    /// The number of members that the resource has room for: the most that
    /// was ever asked for, and no fewer than it has.
    pub room: nat,
}

/// The engine's memory as a contract sees it: the resource of each handle.
/// Handle 0 is the null handle and names no resource.
pub struct EngineState {
    pub resources: Seq<Resource>,
}

impl Content {
    /// The number of members of an aggregate; other content has none.
    pub open spec fn member_count(self) -> nat {
        match self {
            Content::Aggregate(members) => members.len(),
            _ => 0,
        }
    }

    pub open spec fn members(self) -> Seq<usize> {
        match self {
            Content::Aggregate(members) => members,
            _ => Seq::empty(),
        }
    }

    /// Whether an integer is kept at its width: it has as many words as the
    /// width takes, and no bit above the width is set. Other content has no
    /// width to keep.
    pub open spec fn width_kept(self) -> bool {
        match self {
            Content::Int { words, width } => words == clipped_words(words, 0, width),
            _ => true,
        }
    }

    /// Whether a resource may be made with this content or have it written
    /// over what it holds: an integer is kept at its width, and an aggregate
    /// has no members yet.
    pub open spec fn plain(self) -> bool {
        self.width_kept() && self.members().len() == 0
    }
}

impl EngineState {
    /// The number of handles in use, the null handle included.
    pub open spec fn len(self) -> nat {
        self.resources.len()
    }

    pub open spec fn owner(self, handle: usize) -> usize {
        self.resources[handle as int].owner
    }

    pub open spec fn releases(self, handle: usize) -> nat {
        self.resources[handle as int].releases
    }

    pub open spec fn type_tag(self, handle: usize) -> Option<BasicTypeEnum> {
        self.resources[handle as int].type_tag
    }

    pub open spec fn content(self, handle: usize) -> Content {
        self.resources[handle as int].content
    }

    pub open spec fn room(self, handle: usize) -> nat {
        self.resources[handle as int].room
    }

    /// Whether `handle` names a resource that stands on its own.
    pub open spec fn is_root(self, handle: usize) -> bool {
        0 < handle < self.len() && self.owner(handle) == handle
    }

    /// Whether `handle` names a resource that has not been released, neither
    /// itself nor with the aggregate that it belongs to.
    pub open spec fn live(self, handle: usize) -> bool {
        0 < handle < self.len() && self.releases(self.owner(handle)) == 0
    }

    /// What holds of the members of the resource at `handle`: each is
    /// another resource that belongs where this one belongs, and none occurs
    /// twice.
    pub open spec fn members_wf(self, handle: int) -> bool {
        let members = self.resources[handle].content.members();
        &&& members.no_duplicates()
        &&& forall|i: int|
            0 <= i < members.len() ==> {
                let m = #[trigger] members[i];
                &&& 0 < m < self.len()
                &&& m != handle
                &&& self.owner(m) == self.resources[handle].owner
                &&& self.owner(m) != m
            }
    }

    /// What holds of the resource at `handle`: it belongs to a resource
    /// that stands on its own, only the null handle belongs to the null
    /// handle, only a resource that stands on its own is ever released, and
    /// that at most once; an integer is kept at its width; it has room for
    /// the members it has; and its members are as `members_wf` says.
    pub open spec fn resource_wf(self, handle: int) -> bool {
        let r = self.resources[handle];
        &&& r.owner < self.len()
        &&& self.resources[r.owner as int].owner == r.owner
        &&& (r.owner == 0 <==> handle == 0)
        &&& r.releases <= 1
        &&& (r.owner != handle ==> r.releases == 0)
        &&& r.content.width_kept()
        &&& r.content.member_count() <= r.room
        &&& self.members_wf(handle)
    }

    /// What holds of the engine's memory at all times.
    pub open spec fn wf(self) -> bool {
        &&& self.len() >= 1
        &&& forall|h: int|
            #![trigger self.resources[h]]
            0 <= h < self.len() ==> self.resource_wf(h)
    }

    /// The memory after a new resource with the given content was made: it
    /// has the next handle, stands on its own, carries no tag and has room
    /// for no member.
    pub open spec fn created(self, content: Content) -> EngineState {
        EngineState {
            resources: self.resources.push(
                Resource {
                    owner: self.len() as usize,
                    releases: 0,
                    type_tag: None,
                    content,
                    room: 0,
                },
            ),
        }
    }

    /// The memory after room for `count` members was asked for at `handle`:
    /// the resource has room for that many, or for as many as before where
    /// that was more. What it holds stays as it is.
    pub open spec fn with_room_for(self, handle: usize, count: nat) -> EngineState {
        EngineState {
            resources: self.resources.update(
                handle as int,
                Resource {
                    room: if count > self.resources[handle as int].room {
                        count
                    } else {
                        self.resources[handle as int].room
                    },
                    ..self.resources[handle as int]
                },
            ),
        }
    }

    /// The memory after the content at `handle` was overwritten.
    pub open spec fn with_content(self, handle: usize, content: Content) -> EngineState {
        EngineState {
            resources: self.resources.update(
                handle as int,
                Resource { content, ..self.resources[handle as int] },
            ),
        }
    }

    /// The memory after `tag` was attached at `handle`.
    pub open spec fn with_type_tag(self, handle: usize, tag: BasicTypeEnum) -> EngineState {
        EngineState {
            resources: self.resources.update(
                handle as int,
                Resource { type_tag: Some(tag), ..self.resources[handle as int] },
            ),
        }
    }

    /// The memory after the independent resource `child` was appended to the
    /// aggregate `parent`: the child is the last member, and it and all that
    /// belonged to it now belong where the parent belongs. The parent has
    /// room for the member more: its room grows by one where it was full.
    pub open spec fn adopted(self, parent: usize, child: usize) -> EngineState {
        EngineState {
            resources: Seq::new(
                self.len(),
                |h: int|
                    {
                        let r = self.resources[h];
                        Resource {
                            owner: if r.owner == child {
                                self.owner(parent)
                            } else {
                                r.owner
                            },
                            content: if h == parent {
                                Content::Aggregate(r.content.members().push(child))
                            } else {
                                r.content
                            },
                            room: if h == parent && r.room <= r.content.members().len() {
                                r.content.members().len() + 1
                            } else {
                                r.room
                            },
                            ..r
                        }
                    },
            ),
        }
    }

    /// The memory after the independent resource at `handle` was released.
    pub open spec fn released(self, handle: usize) -> EngineState {
        EngineState {
            resources: self.resources.update(
                handle as int,
                Resource {
                    releases: self.resources[handle as int].releases + 1,
                    ..self.resources[handle as int]
                },
            ),
        }
    }
}

/// The type description that a borrowed tag stands for.
pub open spec fn tag_value(tag: Option<&BasicTypeEnum>) -> Option<BasicTypeEnum> {
    match tag {
        Some(tag) => Some(*tag),
        None => None,
    }
}

/// The number of 64-bit words that an integer of `width` bits takes.
pub open spec fn word_count(width: u32) -> nat {
    ((width as nat + 63) / 64) as nat
}

/// How many bits of an integer of `width` bits lie in its word `index`.
pub open spec fn bits_in_word(width: u32, index: nat) -> nat {
    if width as nat >= 64 * (index + 1) {
        64
    } else if width as nat > 64 * index {
        (width as nat - 64 * index) as nat
    } else {
        0
    }
}

/// The word whose `bits` low bits are set and no other.
pub open spec fn low_mask(bits: nat) -> u64 {
    if bits >= 64 {
        u64::MAX
    } else {
        (((1u64 << (bits as u64)) - 1) as u64)
    }
}

/// The words of an integer of `width` bits as the engine keeps them when it
/// is handed the words `raw`: as many words as the width takes, the words of
/// `raw` in their order and `fill` where `raw` has no more, with every bit
/// above the width cleared.
pub open spec fn clipped_words(raw: Seq<u64>, fill: u64, width: u32) -> Seq<u64> {
    Seq::new(
        word_count(width),
        |i: int|
            (if i < raw.len() {
                raw[i]
            } else {
                fill
            }) & low_mask(bits_in_word(width, i as nat)),
    )
}

/// The word that continues `value` above its 64 bits: all ones where
/// `value` is read as signed and is negative, zero otherwise.
pub open spec fn sign_fill(value: u64, signed: bool) -> u64 {
    if signed && value >= 0x8000_0000_0000_0000 {
        u64::MAX
    } else {
        0
    }
}

/// A new resource is there to be read: it has the next handle, stands on
/// its own, has not been released, carries no tag and holds what it was made
/// with. Nothing else changes.
pub proof fn lemma_created(state: EngineState, content: Content)
    requires
        state.wf(),
        state.len() <= usize::MAX,
        content.plain(),
    ensures
        state.created(content).wf(),
        state.created(content).len() == state.len() + 1,
        state.created(content).live(state.len() as usize),
        state.created(content).is_root(state.len() as usize),
        state.created(content).releases(state.len() as usize) == 0,
        state.created(content).type_tag(state.len() as usize) is None,
        state.created(content).content(state.len() as usize) == content,
        forall|h: int|
            0 <= h < state.len() ==> #[trigger] state.created(content).resources[h]
                == state.resources[h],
{
    let after = state.created(content);
    assert forall|h: int| 0 <= h < after.len() implies #[trigger] after.resource_wf(h) by {
        if h < state.len() {
            assert(after.resources[h] == state.resources[h]);
            assert(state.members_wf(h));
        }
    }
}

/// Overwriting what a resource holds with content that has no members
/// changes that content and nothing else: who belongs where, what was
/// released and every tag stay as they were.
pub proof fn lemma_with_content(state: EngineState, handle: usize, content: Content)
    requires
        state.wf(),
        0 < handle < state.len(),
        content.plain(),
    ensures
        state.with_content(handle, content).wf(),
        state.with_content(handle, content).len() == state.len(),
        state.with_content(handle, content).content(handle) == content,
        state.with_content(handle, content).type_tag(handle) == state.type_tag(handle),
        forall|h: usize| #[trigger]
            state.with_content(handle, content).live(h) == state.live(h),
        forall|h: int|
            0 <= h < state.len() && h != handle ==> #[trigger] state.with_content(
                handle,
                content,
            ).resources[h] == state.resources[h],
{
    let after = state.with_content(handle, content);
    assert forall|h: int| 0 <= h < after.len() implies #[trigger] after.resource_wf(h) by {
        let b = state.resources[h];
        assert(after.resources[h].owner == b.owner);
        assert(after.resources[b.owner as int].owner == state.resources[b.owner as int].owner);
        assert(state.members_wf(h));
    }
    assert forall|h: usize| #[trigger] after.live(h) == state.live(h) by {
        if 0 < h < state.len() {
            assert(state.resources[h as int].owner < state.len());
        }
    }
}

/// Attaching a tag to a resource changes that tag and nothing else.
pub proof fn lemma_with_type_tag(state: EngineState, handle: usize, tag: BasicTypeEnum)
    requires
        state.wf(),
        0 < handle < state.len(),
    ensures
        state.with_type_tag(handle, tag).wf(),
        state.with_type_tag(handle, tag).len() == state.len(),
        state.with_type_tag(handle, tag).type_tag(handle) == Some(tag),
        state.with_type_tag(handle, tag).content(handle) == state.content(handle),
        forall|h: usize| #[trigger]
            state.with_type_tag(handle, tag).live(h) == state.live(h),
        forall|h: int|
            0 <= h < state.len() && h != handle ==> #[trigger] state.with_type_tag(
                handle,
                tag,
            ).resources[h] == state.resources[h],
{
    let after = state.with_type_tag(handle, tag);
    assert forall|h: int| 0 <= h < after.len() implies #[trigger] after.resource_wf(h) by {
        let b = state.resources[h];
        assert(after.resources[h].owner == b.owner);
        assert(after.resources[b.owner as int].owner == state.resources[b.owner as int].owner);
        assert(state.members_wf(h));
    }
    assert forall|h: usize| #[trigger] after.live(h) == state.live(h) by {
        if 0 < h < state.len() {
            assert(state.resources[h as int].owner < state.len());
        }
    }
}

/// Asking for room changes the room of that resource and nothing else: the
/// resource has room for what was asked, keeps the room it had where that
/// was more, and holds what it held.
pub proof fn lemma_with_room_for(state: EngineState, handle: usize, count: nat)
    requires
        state.wf(),
        0 < handle < state.len(),
    ensures
        state.with_room_for(handle, count).wf(),
        state.with_room_for(handle, count).len() == state.len(),
        state.with_room_for(handle, count).room(handle) >= count,
        state.with_room_for(handle, count).room(handle) >= state.room(handle),
        state.with_room_for(handle, count).room(handle) == count || state.with_room_for(
            handle,
            count,
        ).room(handle) == state.room(handle),
        state.with_room_for(handle, count).content(handle) == state.content(handle),
        state.with_room_for(handle, count).type_tag(handle) == state.type_tag(handle),
        forall|h: usize| #[trigger]
            state.with_room_for(handle, count).live(h) == state.live(h),
        forall|h: int|
            0 <= h < state.len() && h != handle ==> #[trigger] state.with_room_for(
                handle,
                count,
            ).resources[h] == state.resources[h],
{
    let after = state.with_room_for(handle, count);
    assert forall|h: int| 0 <= h < after.len() implies #[trigger] after.resource_wf(h) by {
        let b = state.resources[h];
        assert(after.resources[h].owner == b.owner);
        assert(after.resources[b.owner as int].owner == state.resources[b.owner as int].owner);
        assert(state.members_wf(h));
    }
    assert forall|h: usize| #[trigger] after.live(h) == state.live(h) by {
        if 0 < h < state.len() {
            assert(state.resources[h as int].owner < state.len());
        }
    }
}

/// A resource that stands on its own and has not been released has been
/// released exactly once after its release, and is then no longer live:
/// no second release can be asked for. The release of one resource leaves
/// the count of every other as it was.
pub proof fn lemma_released_once(state: EngineState, handle: usize)
    requires
        state.wf(),
        state.live(handle),
        state.is_root(handle),
    ensures
        state.releases(handle) == 0,
        state.released(handle).wf(),
        state.released(handle).releases(handle) == 1,
        !state.released(handle).live(handle),
        forall|other: usize|
            other < state.len() && other != handle ==> #[trigger] state.released(handle).releases(
                other,
            ) == state.releases(other),
        forall|other: usize|
            state.live(other) && state.owner(other) != handle ==> #[trigger] state.released(
                handle,
            ).live(other),
{
    let after = state.released(handle);
    assert forall|h: int| 0 <= h < after.len() implies #[trigger] after.resource_wf(h) by {
        let b = state.resources[h];
        assert(after.resources[h].owner == b.owner);
        assert(after.resources[b.owner as int].owner == state.resources[b.owner as int].owner);
        assert(state.members_wf(h));
    }
    assert forall|other: usize|
        state.live(other) && state.owner(other) != handle implies #[trigger] after.live(other) by {
        assert(state.resources[other as int].owner < state.len());
    }
}

/// All that belongs to a resource is released with it.
pub proof fn lemma_released_with_owner(state: EngineState, handle: usize, part: usize)
    requires
        state.wf(),
        state.live(handle),
        state.is_root(handle),
        part < state.len(),
        state.owner(part) == handle,
    ensures
        !state.released(handle).live(part),
{
}

/// Clearing all but the `bits` low bits of a word leaves the word modulo
/// 2 to the power `bits`.
pub proof fn lemma_low_mask_is_mod(word: u64, bits: nat)
    requires
        bits <= 64,
    ensures
        (word & low_mask(bits)) as nat == word as nat % pow2(bits),
        bits < 64 ==> low_mask(bits) as nat == pow2(bits) - 1,
{
    lemma2_to64_rest();
    if bits == 64 {
        assert(word & u64::MAX == word) by (bit_vector);
    } else {
        lemma_u64_pow2_no_overflow(bits);
        lemma_u64_shl_is_mul(1, bits as u64);
        assert(low_mask(bits) == low_bits_mask(bits) as u64);
        lemma_u64_low_bits_mask_is_mod(word, bits);
    }
}

/// Words that were cut to a width are kept at that width: cutting them
/// again changes nothing.
pub proof fn lemma_clipped_words_kept(raw: Seq<u64>, fill: u64, width: u32)
    ensures
        (Content::Int { words: clipped_words(raw, fill, width), width }).width_kept(),
        clipped_words(raw, fill, width).len() == word_count(width),
{
    let once = clipped_words(raw, fill, width);
    let twice = clipped_words(once, 0, width);
    assert forall|i: int| 0 <= i < once.len() implies twice[i] == once[i] by {
        let source = if i < raw.len() {
            raw[i]
        } else {
            fill
        };
        let mask = low_mask(bits_in_word(width, i as nat));
        assert((source & mask) & mask == source & mask) by (bit_vector);
    }
    assert(twice =~= once);
}

/// An integer of 128 bits keeps both of two words as they are.
pub proof fn lemma_clipped_two_words(raw: Seq<u64>, fill: u64)
    requires
        raw.len() == 2,
    ensures
        clipped_words(raw, fill, 128) == raw,
{
    let kept = clipped_words(raw, fill, 128);
    assert(kept.len() == 2);
    assert forall|i: int| 0 <= i < 2 implies kept[i] == raw[i] by {
        let word = raw[i];
        assert(bits_in_word(128, i as nat) == 64);
        assert(word & u64::MAX == word) by (bit_vector);
    }
    assert(kept =~= raw);
}

/// An integer of 64 bits keeps the first word as it is, and no other.
pub proof fn lemma_clipped_one_word(raw: Seq<u64>, fill: u64)
    requires
        raw.len() >= 1,
    ensures
        clipped_words(raw, fill, 64) == seq![raw[0]],
{
    let kept = clipped_words(raw, fill, 64);
    let word = raw[0];
    assert(kept.len() == 1);
    assert(bits_in_word(64, 0) == 64);
    assert(word & u64::MAX == word) by (bit_vector);
    assert(kept =~= seq![raw[0]]);
}

/// Appending an independent resource to an aggregate of another family
/// keeps the engine's memory well formed.
pub proof fn lemma_adopted_wf(state: EngineState, parent: usize, child: usize)
    requires
        state.wf(),
        state.live(parent),
        state.content(parent) is Aggregate,
        state.live(child),
        state.is_root(child),
        state.owner(parent) != child,
    ensures
        state.adopted(parent, child).wf(),
        state.adopted(parent, child).len() == state.len(),
{
    let after = state.adopted(parent, child);
    let target = state.owner(parent);
    assert(state.resources[parent as int].owner == target);
    assert(state.resources[target as int].owner == target);
    assert forall|h: int| 0 <= h < after.len() implies #[trigger] after.resource_wf(h) by {
        let b = state.resources[h];
        let r = after.resources[h];
        assert(state.resources[b.owner as int].owner == b.owner);
        assert(state.members_wf(h));
        let old_members = b.content.members();
        let new_members = r.content.members();
        if h == parent {
            assert(new_members =~= old_members.push(child));
            assert forall|i: int| 0 <= i < new_members.len() implies {
                let m = #[trigger] new_members[i];
                &&& 0 < m < after.len()
                &&& m != h
                &&& after.owner(m) == r.owner
                &&& after.owner(m) != m
            } by {
                if i < old_members.len() {
                    let m = old_members[i];
                    assert(new_members[i] == m);
                    assert(state.owner(m) == b.owner);
                }
            }
            assert(new_members.no_duplicates()) by {
                assert forall|i: int, j: int|
                    0 <= i < new_members.len() && 0 <= j < new_members.len() && i != j
                    implies new_members[i] != new_members[j] by {
                    if i < old_members.len() && j < old_members.len() {
                    } else if i < old_members.len() {
                        assert(state.owner(old_members[i]) == b.owner);
                    } else {
                        assert(state.owner(old_members[j]) == b.owner);
                    }
                }
            }
        } else {
            assert(new_members == old_members);
            assert forall|i: int| 0 <= i < new_members.len() implies {
                let m = #[trigger] new_members[i];
                &&& 0 < m < after.len()
                &&& m != h
                &&& after.owner(m) == r.owner
                &&& after.owner(m) != m
            } by {
                let m = old_members[i];
                assert(state.owner(m) == b.owner);
            }
        }
    }
}

/// The content of a resource as the engine holds it.
enum Payload {
    Data(Vec<u8>),
    Int { words: Vec<u64>, width: u32 },
    Single(u32),
    Double(u64),
    Pointer(usize),
    Miri(MiriPointer),
    Aggregate(Vec<usize>),
}

impl View for Payload {
    type V = Content;

    closed spec fn view(&self) -> Content {
        match self {
            Payload::Data(bytes) => Content::Data(bytes@),
            Payload::Int { words, width } => Content::Int { words: words@, width: *width },
            Payload::Single(bits) => Content::Single(*bits),
            Payload::Double(bits) => Content::Double(*bits),
            Payload::Pointer(address) => Content::Pointer(*address),
            Payload::Miri(pointer) => Content::Miri(*pointer),
            Payload::Aggregate(members) => Content::Aggregate(members@),
        }
    }
}

struct Slot<'ctx> {
    owner: usize,
    released: bool,
    type_tag: Option<&'ctx BasicTypeEnum>,
    payload: Payload,
    room: u64,
}

impl<'ctx> View for Slot<'ctx> {
    type V = Resource;

    closed spec fn view(&self) -> Resource {
        Resource {
            owner: self.owner,
            releases: if self.released {
                1
            } else {
                0
            },
            type_tag: tag_value(self.type_tag),
            content: self.payload@,
            room: self.room as nat,
        }
    }
}

/// The engine's memory. The type tags that it holds are borrowed from the
/// type descriptions of the host, which outlive it.
pub struct Engine<'ctx> {
    slots: Vec<Slot<'ctx>>,
}

impl<'ctx> View for Engine<'ctx> {
    type V = EngineState;

    closed spec fn view(&self) -> EngineState {
        EngineState { resources: Seq::new(self.slots@.len(), |h: int| self.slots@[h]@) }
    }
}

impl<'ctx> Engine<'ctx> {
    /// An engine that holds no resource yet.
    pub fn new() -> (engine: Self)
        ensures
            engine@.wf(),
            engine@.len() == 1,
    {
        let mut slots: Vec<Slot<'ctx>> = Vec::new();
        slots.push(
            Slot {
                owner: 0,
                released: false,
                type_tag: None,
                payload: Payload::Data(Vec::new()),
                room: 0,
            },
        );
        let engine = Engine { slots };
        proof {
            assert(engine@.resources[0].content.members() =~= Seq::empty());
        }
        engine
    }

    /// The number of handles in use, the null handle included.
    pub fn len(&self) -> (len: usize)
        ensures
            len == self@.len(),
    {
        self.slots.len()
    }

    /// Whether `handle` names a resource that has not been released.
    pub fn is_live(&self, handle: usize) -> (live: bool)
        requires
            self@.wf(),
        ensures
            live == self@.live(handle),
    {
        if 0 < handle && handle < self.slots.len() {
            let owner: usize = self.slots[handle].owner;
            proof {
                assert(self@.resources[handle as int].owner == owner);
            }
            !self.slots[owner].released
        } else {
            false
        }
    }

    /// Whether `handle` names a resource that stands on its own.
    pub fn is_root(&self, handle: usize) -> (root: bool)
        ensures
            root == self@.is_root(handle),
    {
        0 < handle && handle < self.slots.len() && self.slots[handle].owner == handle
    }

    /// How often the resource at `handle` has been released.
    pub fn release_count(&self, handle: usize) -> (count: usize)
        requires
            handle < self@.len(),
        ensures
            count == self@.releases(handle),
    {
        if self.slots[handle].released {
            1
        } else {
            0
        }
    }

    /// Makes a resource with the given payload and returns its handle.
    fn allocate(&mut self, payload: Payload) -> (handle: usize)
        requires
            old(self)@.wf(),
            payload@.plain(),
        ensures
            final(self)@ == old(self)@.created(payload@),
            final(self)@.wf(),
            handle == old(self)@.len(),
            final(self)@.live(handle),
            final(self)@.is_root(handle),
    {
        let handle: usize = self.slots.len();
        self.slots.push(Slot { owner: handle, released: false, type_tag: None, payload, room: 0 });
        proof {
            assert(self@.resources =~= old(self)@.created(payload@).resources);
            lemma_created(old(self)@, payload@);
        }
        handle
    }

    /// Overwrites the payload at `handle` with one that has no members.
    fn store(&mut self, handle: usize, payload: Payload)
        requires
            old(self)@.wf(),
            0 < handle < old(self)@.len(),
            payload@.plain(),
        ensures
            final(self)@ == old(self)@.with_content(handle, payload@),
            final(self)@.wf(),
    {
        self.slots[handle].payload = payload;
        proof {
            assert(self@.resources =~= old(self)@.with_content(handle, payload@).resources);
            lemma_with_content(old(self)@, handle, payload@);
        }
    }

    /// Makes a resource that holds the given bytes.
    pub fn create_data(&mut self, bytes: Vec<u8>) -> (handle: usize)
        requires
            old(self)@.wf(),
        ensures
            final(self)@ == old(self)@.created(Content::Data(bytes@)),
            final(self)@.wf(),
            handle == old(self)@.len(),
            final(self)@.live(handle),
            final(self)@.is_root(handle),
    {
        self.allocate(Payload::Data(bytes))
    }

    /// Makes a resource that holds an integer of `width` bits: `value`,
    /// continued by its sign where `signed` is set, cut to the width.
    pub fn create_int(&mut self, width: u32, value: u64, signed: bool) -> (handle: usize)
        requires
            old(self)@.wf(),
        ensures
            final(self)@ == old(self)@.created(
                Content::Int {
                    words: clipped_words(seq![value], sign_fill(value, signed), width),
                    width,
                },
            ),
            final(self)@.wf(),
            handle == old(self)@.len(),
            final(self)@.live(handle),
            final(self)@.is_root(handle),
    {
        let fill: u64 = if signed && value >= 0x8000_0000_0000_0000 {
            u64::MAX
        } else {
            0
        };
        let mut raw: Vec<u64> = Vec::new();
        raw.push(value);
        let words: Vec<u64> = clip_words(raw.as_slice(), fill, width);
        proof {
            assert(raw@ =~= seq![value]);
            lemma_clipped_words_kept(raw@, fill, width);
        }
        self.allocate(Payload::Int { words, width })
    }

    /// Makes a resource that holds a single-precision number.
    pub fn create_single(&mut self, bits: u32) -> (handle: usize)
        requires
            old(self)@.wf(),
        ensures
            final(self)@ == old(self)@.created(Content::Single(bits)),
            final(self)@.wf(),
            handle == old(self)@.len(),
            final(self)@.live(handle),
            final(self)@.is_root(handle),
    {
        self.allocate(Payload::Single(bits))
    }

    /// Makes a resource that holds a double-precision number.
    pub fn create_double(&mut self, bits: u64) -> (handle: usize)
        requires
            old(self)@.wf(),
        ensures
            final(self)@ == old(self)@.created(Content::Double(bits)),
            final(self)@.wf(),
            handle == old(self)@.len(),
            final(self)@.live(handle),
            final(self)@.is_root(handle),
    {
        self.allocate(Payload::Double(bits))
    }

    /// Makes a resource that holds an address of the host.
    pub fn create_pointer(&mut self, address: usize) -> (handle: usize)
        requires
            old(self)@.wf(),
        ensures
            final(self)@ == old(self)@.created(Content::Pointer(address)),
            final(self)@.wf(),
            handle == old(self)@.len(),
            final(self)@.live(handle),
            final(self)@.is_root(handle),
    {
        self.allocate(Payload::Pointer(address))
    }

    /// Makes a resource that holds a pointer of the memory-safety checker.
    pub fn create_miri_pointer(&mut self, pointer: MiriPointer) -> (handle: usize)
        requires
            old(self)@.wf(),
        ensures
            final(self)@ == old(self)@.created(Content::Miri(pointer)),
            final(self)@.wf(),
            handle == old(self)@.len(),
            final(self)@.live(handle),
            final(self)@.is_root(handle),
    {
        self.allocate(Payload::Miri(pointer))
    }

    /// Makes an aggregate without members, with room for `members` of them.
    pub fn create_aggregate(&mut self, members: u64) -> (handle: usize)
        requires
            old(self)@.wf(),
        ensures
            final(self)@ == old(self)@.created(Content::Aggregate(Seq::empty())).with_room_for(
                handle,
                members as nat,
            ),
            final(self)@.wf(),
            handle == old(self)@.len(),
            final(self)@.live(handle),
            final(self)@.is_root(handle),
    {
        let list: Vec<usize> = Vec::new();
        let handle: usize = self.allocate(Payload::Aggregate(list));
        self.ensure_capacity(handle, members);
        handle
    }

    /// The number of members that the resource at `handle` has room for.
    pub fn room(&self, handle: usize) -> (room: u64)
        requires
            self@.wf(),
            self@.live(handle),
        ensures
            room == self@.room(handle),
    {
        self.slots[handle].room
    }

    /// The type tag at `handle`, if one was attached.
    pub fn type_tag(&self, handle: usize) -> (tag: Option<&'ctx BasicTypeEnum>)
        requires
            self@.wf(),
            self@.live(handle),
        ensures
            tag_value(tag) == self@.type_tag(handle),
    {
        self.slots[handle].type_tag
    }

    /// Attaches `tag` at `handle`, in place of any earlier tag.
    pub fn set_type_tag(&mut self, handle: usize, tag: &'ctx BasicTypeEnum)
        requires
            old(self)@.wf(),
            old(self)@.live(handle),
        ensures
            final(self)@ == old(self)@.with_type_tag(handle, *tag),
            final(self)@.wf(),
    {
        self.slots[handle].type_tag = Some(tag);
        proof {
            assert(self@.resources =~= old(self)@.with_type_tag(handle, *tag).resources);
            lemma_with_type_tag(old(self)@, handle, *tag);
        }
    }

    /// The width in bits of the integer at `handle`.
    pub fn int_width(&self, handle: usize) -> (width: u32)
        requires
            self@.wf(),
            self@.live(handle),
            self@.content(handle) is Int,
        ensures
            width == self@.content(handle)->width,
    {
        match &self.slots[handle].payload {
            Payload::Int { width, .. } => *width,
            _ => vstd::pervasive::unreached(),
        }
    }

    /// The words of the integer at `handle`, as the engine keeps them.
    pub fn int_words(&self, handle: usize) -> (words: &Vec<u64>)
        requires
            self@.wf(),
            self@.live(handle),
            self@.content(handle) is Int,
        ensures
            words@ == self@.content(handle)->words,
    {
        match &self.slots[handle].payload {
            Payload::Int { words, .. } => words,
            _ => vstd::pervasive::unreached(),
        }
    }

    /// Overwrites the content at `handle` with an integer of `bytes` bytes,
    /// taken from `words` and cut to that width.
    pub fn set_int_words(&mut self, handle: usize, words: &[u64], bytes: u64)
        requires
            old(self)@.wf(),
            old(self)@.live(handle),
            8 * bytes <= u32::MAX,
        ensures
            final(self)@ == old(self)@.with_content(
                handle,
                Content::Int {
                    words: clipped_words(words@, 0, (8 * bytes) as u32),
                    width: (8 * bytes) as u32,
                },
            ),
            final(self)@.wf(),
    {
        let width: u32 = (8 * bytes) as u32;
        let kept: Vec<u64> = clip_words(words, 0, width);
        proof {
            lemma_clipped_words_kept(words@, 0, width);
        }
        self.store(handle, Payload::Int { words: kept, width });
    }

    /// The bits of the single-precision number at `handle`.
    pub fn single_bits(&self, handle: usize) -> (bits: u32)
        requires
            self@.wf(),
            self@.live(handle),
            self@.content(handle) is Single,
        ensures
            self@.content(handle) == Content::Single(bits),
    {
        match &self.slots[handle].payload {
            Payload::Single(bits) => *bits,
            _ => vstd::pervasive::unreached(),
        }
    }

    /// The bits of the double-precision number at `handle`.
    pub fn double_bits(&self, handle: usize) -> (bits: u64)
        requires
            self@.wf(),
            self@.live(handle),
            self@.content(handle) is Double,
        ensures
            self@.content(handle) == Content::Double(bits),
    {
        match &self.slots[handle].payload {
            Payload::Double(bits) => *bits,
            _ => vstd::pervasive::unreached(),
        }
    }

    /// Overwrites the content at `handle` with a single-precision number.
    pub fn set_single_bits(&mut self, handle: usize, bits: u32)
        requires
            old(self)@.wf(),
            old(self)@.live(handle),
        ensures
            final(self)@ == old(self)@.with_content(handle, Content::Single(bits)),
            final(self)@.wf(),
    {
        self.store(handle, Payload::Single(bits));
    }

    /// Overwrites the content at `handle` with a double-precision number.
    pub fn set_double_bits(&mut self, handle: usize, bits: u64)
        requires
            old(self)@.wf(),
            old(self)@.live(handle),
        ensures
            final(self)@ == old(self)@.with_content(handle, Content::Double(bits)),
            final(self)@.wf(),
    {
        self.store(handle, Payload::Double(bits));
    }

    /// Overwrites the content at `handle` with raw bytes.
    pub fn set_data(&mut self, handle: usize, bytes: Vec<u8>)
        requires
            old(self)@.wf(),
            old(self)@.live(handle),
        ensures
            final(self)@ == old(self)@.with_content(handle, Content::Data(bytes@)),
            final(self)@.wf(),
    {
        self.store(handle, Payload::Data(bytes));
    }

    /// The raw bytes at `handle`.
    pub fn data(&self, handle: usize) -> (bytes: &Vec<u8>)
        requires
            self@.wf(),
            self@.live(handle),
            self@.content(handle) is Data,
        ensures
            self@.content(handle) == Content::Data(bytes@),
    {
        match &self.slots[handle].payload {
            Payload::Data(bytes) => bytes,
            _ => vstd::pervasive::unreached(),
        }
    }

    /// The address of the host at `handle`.
    pub fn pointer(&self, handle: usize) -> (address: usize)
        requires
            self@.wf(),
            self@.live(handle),
            self@.content(handle) is Pointer,
        ensures
            self@.content(handle) == Content::Pointer(address),
    {
        match &self.slots[handle].payload {
            Payload::Pointer(address) => *address,
            _ => vstd::pervasive::unreached(),
        }
    }

    /// The pointer of the memory-safety checker at `handle`.
    pub fn miri_pointer(&self, handle: usize) -> (pointer: MiriPointer)
        requires
            self@.wf(),
            self@.live(handle),
            self@.content(handle) is Miri,
        ensures
            self@.content(handle) == Content::Miri(pointer),
    {
        match &self.slots[handle].payload {
            Payload::Miri(pointer) => *pointer,
            _ => vstd::pervasive::unreached(),
        }
    }

    /// Overwrites the content at `handle` with a pointer of the
    /// memory-safety checker.
    pub fn set_miri_pointer(&mut self, handle: usize, pointer: MiriPointer)
        requires
            old(self)@.wf(),
            old(self)@.live(handle),
        ensures
            final(self)@ == old(self)@.with_content(handle, Content::Miri(pointer)),
            final(self)@.wf(),
    {
        self.store(handle, Payload::Miri(pointer));
    }

    /// Appends the independent resource `child` to the aggregate `parent`.
    /// The child, with all that belongs to it, from then on belongs where the
    /// parent belongs.
    pub fn append_member(&mut self, parent: usize, child: usize)
        requires
            old(self)@.wf(),
            old(self)@.live(parent),
            old(self)@.content(parent) is Aggregate,
            old(self)@.live(child),
            old(self)@.is_root(child),
            old(self)@.owner(parent) != child,
        ensures
            final(self)@ == old(self)@.adopted(parent, child),
            final(self)@.wf(),
    {
        let ghost before = self@;
        let target: usize = self.slots[parent].owner;
        let count: usize = self.slots.len();
        let mut index: usize = 0;
        while index < count
            invariant
                count == before.len(),
                self.slots@.len() == count,
                index <= count,
                target == before.owner(parent),
                forall|h: int|
                    0 <= h < index ==> (#[trigger] self.slots@[h])@ == (Resource {
                        owner: if before.resources[h].owner == child {
                            target
                        } else {
                            before.resources[h].owner
                        },
                        ..before.resources[h]
                    }),
                forall|h: int|
                    index <= h < count ==> (#[trigger] self.slots@[h])@ == before.resources[h],
            decreases count - index,
        {
            if self.slots[index].owner == child {
                self.slots[index].owner = target;
            }
            index = index + 1;
        }
        let mut held: u64 = 0;
        match &mut self.slots[parent].payload {
            Payload::Aggregate(members) => {
                members.push(child);
                held = members.len() as u64;
            },
            _ => {
                assert(false);
            },
        }
        if self.slots[parent].room < held {
            self.slots[parent].room = held;
        }
        proof {
            let after = self@;
            let goal = before.adopted(parent, child);
            assert(before.resource_wf(parent as int));
            assert(after.resources =~= goal.resources);
            lemma_adopted_wf(before, parent, child);
        }
    }

    /// Makes room for `capacity` members in the resource at `handle`: from
    /// then on it has room for that many, or for as many as before where
    /// that was more. What the resource holds stays as it is.
    pub fn ensure_capacity(&mut self, handle: usize, capacity: u64)
        requires
            old(self)@.wf(),
            old(self)@.live(handle),
        ensures
            final(self)@ == old(self)@.with_room_for(handle, capacity as nat),
            final(self)@.wf(),
    {
        let ghost before = self@;
        let wanted: usize = clamp_to_usize(capacity);
        match &mut self.slots[handle].payload {
            Payload::Aggregate(members) => {
                let held: usize = members.len();
                if wanted > held {
                    let _ = members.try_reserve(wanted - held);
                }
            },
            _ => {},
        }
        if self.slots[handle].room < capacity {
            self.slots[handle].room = capacity;
        }
        proof {
            assert(self@.resources =~= before.with_room_for(handle, capacity as nat).resources);
            lemma_with_room_for(before, handle, capacity as nat);
        }
    }

    /// Releases the independent resource at `handle`, and with it all that
    /// belongs to it.
    pub fn dispose(&mut self, handle: usize)
        requires
            old(self)@.wf(),
            old(self)@.live(handle),
            old(self)@.is_root(handle),
        ensures
            final(self)@ == old(self)@.released(handle),
            final(self)@.wf(),
            !final(self)@.live(handle),
    {
        self.slots[handle].released = true;
        proof {
            assert(self@.resources =~= old(self)@.released(handle).resources);
            lemma_released_once(old(self)@, handle);
        }
    }

    /// The number of members of the resource at `handle`. A resource that is
    /// no aggregate has none.
    pub fn aggregate_len(&self, handle: usize) -> (len: u64)
        requires
            self@.wf(),
            self@.live(handle),
        ensures
            len == self@.content(handle).member_count(),
    {
        match &self.slots[handle].payload {
            Payload::Aggregate(members) => members.len() as u64,
            _ => 0,
        }
    }

    /// The handle of the member at `index` of the aggregate at `handle`.
    pub fn member(&self, handle: usize, index: u64) -> (member: usize)
        requires
            self@.wf(),
            self@.live(handle),
            index < self@.content(handle).member_count(),
        ensures
            member == self@.content(handle).members()[index as int],
            self@.live(member),
    {
        proof {
            assert(self@.resources[handle as int].owner == self@.owner(handle));
            assert(self@.members_wf(handle as int));
        }
        match &self.slots[handle].payload {
            Payload::Aggregate(members) => {
                let count: usize = members.len();
                assert(index < count);
                members[index as usize]
            },
            _ => vstd::pervasive::unreached(),
        }
    }
}

/// `count` as a `usize`, or the largest `usize` where it does not fit.
fn clamp_to_usize(count: u64) -> (clamped: usize)
    ensures
        clamped == if count <= usize::MAX {
            count as usize
        } else {
            usize::MAX
        },
{
    if count <= usize::MAX as u64 {
        count as usize
    } else {
        usize::MAX
    }
}

/// The words that the engine keeps of `raw` for an integer of `width` bits.
fn clip_words(raw: &[u64], fill: u64, width: u32) -> (words: Vec<u64>)
    ensures
        words@ == clipped_words(raw@, fill, width),
{
    let count: usize = ((width as u64 + 63) / 64) as usize;
    let mut words: Vec<u64> = Vec::new();
    let mut index: usize = 0;
    while index < count
        invariant
            count == word_count(width),
            index <= count,
            words@.len() == index,
            forall|i: int|
                0 <= i < index ==> words@[i] == (if i < raw@.len() {
                    raw@[i]
                } else {
                    fill
                }) & low_mask(bits_in_word(width, i as nat)),
        decreases count - index,
    {
        let source: u64 = if index < raw.len() {
            raw[index]
        } else {
            fill
        };
        let start: u64 = 64 * (index as u64);
        let bits: u64 = if width as u64 >= start + 64 {
            64
        } else {
            width as u64 - start
        };
        let mask: u64 = if bits >= 64 {
            u64::MAX
        } else {
            assert((1u64 << bits) >= 1) by (bit_vector)
                requires
                    bits < 64,
            ;
            (1u64 << bits) - 1
        };
        proof {
            assert(bits == bits_in_word(width, index as nat));
            assert(mask == low_mask(bits as nat));
        }
        words.push(source & mask);
        index = index + 1;
    }
    proof {
        assert(words@ =~= clipped_words(raw@, fill, width));
    }
    words
}

} // verus!
