//! Aggregates: how a composite value splits into fields.
//!
//! An aggregate holds its members in order. Which of them are fields, and of
//! what type, is said by the type tag of the aggregate alone: an array or a
//! vector gives every place the type of its elements, a structure gives each
//! place the type of its field there, and a value without a tag, or with the
//! tag of a scalar, has no fields at all. A field is a view of the member at
//! its place, tagged with the type of the field.

use crate::engine::lemma_adopted_wf;
use crate::engine::tag_value;
use crate::engine::Content;
use crate::engine::EngineState;
use crate::engine::Resource;
use crate::types::BasicTypeEnum;
use vstd::prelude::*;

verus! {

/// The type of the field at `index` of a value whose type tag is `tag`: the
/// element type of an array or a vector, the type of that field of a
/// structure, and none where the tag is missing, names no aggregate, or
/// names a structure without such a field.
pub open spec fn field_type(tag: Option<BasicTypeEnum>, index: u64) -> Option<BasicTypeEnum> {
    match tag {
        Some(BasicTypeEnum::ArrayType(array)) => Some(*array.element),
        Some(BasicTypeEnum::StructType(structure)) => if index < structure.field_types@.len() {
            Some(structure.field_types@[index as int])
        } else {
            None
        },
        Some(BasicTypeEnum::VectorType(vector)) => Some(*vector.element),
        _ => None,
    }
}

/// Whether a value with type tag `tag` has a type for each of its first
/// `count` fields.
pub open spec fn fields_typed(tag: Option<BasicTypeEnum>, count: nat) -> bool {
    forall|index: u64| index < count ==> (#[trigger] field_type(tag, index)) is Some
}

/// The member that is the field at `index` of the value at `handle`: the
/// member at that place, where the tag of the value gives the field a type
/// and the aggregate has a member there.
pub open spec fn field_handle(state: EngineState, handle: usize, index: u64) -> Option<usize> {
    if field_type(state.type_tag(handle), index) is Some && index < state.content(
        handle,
    ).member_count() {
        Some(state.content(handle).members()[index as int])
    } else {
        None
    }
}

/// Where `handle` stands among `members`.
pub open spec fn position(members: Seq<usize>, handle: usize) -> int {
    choose|index: int| 0 <= index < members.len() && members[index] == handle
}

/// The memory after each of the first `count` members of the aggregate at
/// `handle` got the type of its field as its tag.
pub open spec fn with_field_tags(state: EngineState, handle: usize, count: nat) -> EngineState {
    let members = state.content(handle).members();
    let tag = state.type_tag(handle);
    EngineState {
        resources: Seq::new(
            state.len(),
            |k: int|
                if exists|index: int|
                    0 <= index < count && index < members.len() && members[index] == k {
                    Resource {
                        type_tag: field_type(tag, position(members, k as usize) as u64),
                        ..state.resources[k]
                    }
                } else {
                    state.resources[k]
                },
        ),
    }
}

/// The type that a value with type tag `tag` gives to its field at `index`.
pub fn field_type_of<'a>(tag: Option<&'a BasicTypeEnum>, index: u64) -> (ty: Option<
    &'a BasicTypeEnum,
>)
    ensures
        tag_value(ty) == field_type(tag_value(tag), index),
{
    match tag {
        Some(BasicTypeEnum::ArrayType(array)) => Some(array.get_element_type()),
        Some(BasicTypeEnum::StructType(structure)) => {
            let fields = structure.get_field_types();
            if index < fields.len() as u64 {
                Some(&fields[index as usize])
            } else {
                None
            }
        },
        Some(BasicTypeEnum::VectorType(vector)) => Some(vector.get_element_type()),
        _ => None,
    }
}

/// The types that a value with type tag `tag` gives to its first `count`
/// fields, or nothing where one of them has no type.
pub fn field_types_of<'a>(tag: Option<&'a BasicTypeEnum>, count: u64) -> (types: Option<
    Vec<&'a BasicTypeEnum>,
>)
    ensures
        types is Some <==> fields_typed(tag_value(tag), count as nat),
        types matches Some(types) ==> {
            &&& types@.len() == count
            &&& forall|i: int|
                0 <= i < count ==> field_type(tag_value(tag), i as u64) == Some(
                    *#[trigger] types@[i],
                )
        },
{
    let mut field_array: Vec<&'a BasicTypeEnum> = Vec::new();
    let mut idx: u64 = 0;
    while idx < count
        invariant
            idx <= count,
            field_array@.len() == idx,
            forall|i: int|
                0 <= i < idx ==> field_type(tag_value(tag), i as u64) == Some(
                    *#[trigger] field_array@[i],
                ),
        decreases count - idx,
    {
        match field_type_of(tag, idx) {
            Some(ty) => {
                field_array.push(ty);
            },
            None => {
                proof {
                    assert(field_type(tag_value(tag), idx) is None);
                }
                return None;
            },
        }
        idx = idx + 1;
    }
    proof {
        assert forall|index: u64| index < count implies (#[trigger] field_type(
            tag_value(tag),
            index,
        )) is Some by {
            assert(field_type(tag_value(tag), index) == Some(*field_array@[index as int]));
        }
    }
    Some(field_array)
}

/// Tagging no member changes nothing.
pub proof fn lemma_with_field_tags_none(state: EngineState, handle: usize)
    ensures
        with_field_tags(state, handle, 0) == state,
{
    assert(with_field_tags(state, handle, 0).resources =~= state.resources);
}

/// Tagging the members of an aggregate leaves the aggregate itself, and the
/// family every resource belongs to, as they were.
pub proof fn lemma_with_field_tags_frame(state: EngineState, handle: usize, count: nat)
    requires
        state.wf(),
        0 < handle < state.len(),
    ensures
        with_field_tags(state, handle, count).len() == state.len(),
        with_field_tags(state, handle, count).resources[handle as int]
            == state.resources[handle as int],
        forall|k: usize|
            k < state.len() ==> {
                &&& (#[trigger] with_field_tags(state, handle, count).owner(k)) == state.owner(k)
                &&& with_field_tags(state, handle, count).releases(k) == state.releases(k)
                &&& with_field_tags(state, handle, count).content(k) == state.content(k)
            },
        forall|k: usize| #[trigger]
            with_field_tags(state, handle, count).live(k) == state.live(k),
{
    let members = state.content(handle).members();
    assert(state.members_wf(handle as int));
    assert forall|index: int| 0 <= index < members.len() implies members[index] != handle by {
        let m = members[index];
    }
    let after = with_field_tags(state, handle, count);
    assert forall|k: usize| #[trigger] after.live(k) == state.live(k) by {
        if 0 < k < state.len() {
            assert(after.owner(k) == state.owner(k));
            assert(state.resources[k as int].owner < state.len());
            assert(after.releases(state.owner(k)) == state.releases(state.owner(k)));
        }
    }
}

/// Tagging one member more is attaching its field type to it.
pub proof fn lemma_with_field_tags_step(
    state: EngineState,
    handle: usize,
    count: nat,
    ty: BasicTypeEnum,
)
    requires
        state.wf(),
        0 < handle < state.len(),
        count < state.content(handle).member_count(),
        count <= u64::MAX,
        field_type(state.type_tag(handle), count as u64) == Some(ty),
    ensures
        with_field_tags(state, handle, count).with_type_tag(
            state.content(handle).members()[count as int],
            ty,
        ) == with_field_tags(state, handle, count + 1),
{
    let members = state.content(handle).members();
    let tag = state.type_tag(handle);
    let member = members[count as int];
    let before = with_field_tags(state, handle, count);
    let after = with_field_tags(state, handle, count + 1);
    let stepped = before.with_type_tag(member, ty);
    assert(state.members_wf(handle as int));
    assert(0 < member < state.len());
    assert forall|k: int| 0 <= k < state.len() implies stepped.resources[k]
        == after.resources[k] by {
        if k == member {
            let p = position(members, member);
            assert(0 <= p < members.len() && members[p] == member);
            assert(p == count);
            assert(members[count as int] == k);
        } else {
            if exists|index: int|
                0 <= index < count + 1 && index < members.len() && members[index] == k {
                let index = choose|index: int|
                    0 <= index < count + 1 && index < members.len() && members[index] == k;
                assert(index != count);
                assert(0 <= index < count && index < members.len() && members[index] == k);
            }
        }
    }
    assert(stepped.resources =~= after.resources);
}

/// After the first `count` members of an aggregate got their field types,
/// the member at each of those places carries the type of its field and
/// holds what it held, and the aggregate has the members it had.
pub proof fn lemma_with_field_tags_reads(state: EngineState, handle: usize, count: nat, place: int)
    requires
        state.wf(),
        0 < handle < state.len(),
        0 <= place < count <= state.content(handle).member_count(),
        count <= u64::MAX,
    ensures
        with_field_tags(state, handle, count).type_tag(state.content(handle).members()[place])
            == field_type(state.type_tag(handle), place as u64),
        with_field_tags(state, handle, count).content(state.content(handle).members()[place])
            == state.content(state.content(handle).members()[place]),
        with_field_tags(state, handle, count).content(handle) == state.content(handle),
        with_field_tags(state, handle, count).type_tag(handle) == state.type_tag(handle),
{
    let members = state.content(handle).members();
    let member = members[place];
    assert(state.members_wf(handle as int));
    assert(0 < member < state.len());
    let found = position(members, member);
    assert(0 <= found < members.len() && members[found] == member);
    assert(found == place);
    lemma_with_field_tags_frame(state, handle, count);
}

/// The memory after each of `children`, in their order, was appended to the
/// aggregate `parent`.
pub open spec fn appended_all(
    state: EngineState,
    parent: usize,
    children: Seq<usize>,
) -> EngineState
    decreases children.len(),
{
    if children.len() == 0 {
        state
    } else {
        appended_all(state, parent, children.drop_last()).adopted(parent, children.last())
    }
}

/// What appending `children` to `parent` comes to, resource by resource:
/// the parent holds the children in their order and has room for them, all
/// that belonged to a child belongs where the parent belongs, and nothing
/// else changes.
pub proof fn lemma_appended_all(state: EngineState, parent: usize, children: Seq<usize>)
    requires
        state.wf(),
        state.live(parent),
        state.content(parent) == Content::Aggregate(Seq::empty()),
        children.no_duplicates(),
        forall|i: int|
            0 <= i < children.len() ==> {
                &&& state.live(#[trigger] children[i])
                &&& state.is_root(children[i])
                &&& children[i] != state.owner(parent)
            },
    ensures
        appended_all(state, parent, children).wf(),
        appended_all(state, parent, children).len() == state.len(),
        forall|h: int|
            0 <= h < state.len() ==> #[trigger] appended_all(state, parent, children).resources[h]
                == (Resource {
                owner: if children.contains(state.resources[h].owner) {
                    state.owner(parent)
                } else {
                    state.resources[h].owner
                },
                content: if h == parent {
                    Content::Aggregate(children)
                } else {
                    state.resources[h].content
                },
                room: if h == parent && state.resources[h].room < children.len() {
                    children.len()
                } else {
                    state.resources[h].room
                },
                ..state.resources[h]
            }),
    decreases children.len(),
{
    let after = appended_all(state, parent, children);
    assert(state.resources[parent as int].owner == state.owner(parent));
    assert(state.resources[state.owner(parent) as int].owner == state.owner(parent));
    if children.len() == 0 {
        assert forall|h: int| 0 <= h < state.len() implies !children.contains(
            state.resources[h].owner,
        ) by {}
        assert(state.content(parent).members() =~= children);
    } else {
        let prefix = children.drop_last();
        let last = children.last();
        let mid = appended_all(state, parent, prefix);
        assert forall|i: int| 0 <= i < prefix.len() implies {
            &&& state.live(#[trigger] prefix[i])
            &&& state.is_root(prefix[i])
            &&& prefix[i] != state.owner(parent)
        } by {
            assert(prefix[i] == children[i]);
        }
        assert(prefix.no_duplicates());
        lemma_appended_all(state, parent, prefix);
        assert(!prefix.contains(last)) by {
            if prefix.contains(last) {
                let j = choose|j: int| 0 <= j < prefix.len() && prefix[j] == last;
                assert(children[j] == children[children.len() - 1]);
            }
        }
        assert(state.live(last) && state.is_root(last) && last != state.owner(parent)) by {
            assert(children[children.len() - 1] == last);
        }
        assert(!prefix.contains(state.owner(parent))) by {
            if prefix.contains(state.owner(parent)) {
                let j = choose|j: int| 0 <= j < prefix.len() && prefix[j] == state.owner(parent);
                assert(children[j] == state.owner(parent));
            }
        }
        assert(mid.resources[parent as int].owner == state.owner(parent));
        assert(mid.resources[state.owner(parent) as int].owner == state.owner(parent));
        assert(mid.resources[last as int].owner == last);
        assert(mid.live(parent));
        assert(mid.live(last));
        assert(mid.content(parent) == Content::Aggregate(prefix));
        lemma_adopted_wf(mid, parent, last);
        assert forall|h: int| 0 <= h < state.len() implies #[trigger] after.resources[h]
            == (Resource {
            owner: if children.contains(state.resources[h].owner) {
                state.owner(parent)
            } else {
                state.resources[h].owner
            },
            content: if h == parent {
                Content::Aggregate(children)
            } else {
                state.resources[h].content
            },
            room: if h == parent && state.resources[h].room < children.len() {
                children.len()
            } else {
                state.resources[h].room
            },
            ..state.resources[h]
        }) by {
            let owner = state.resources[h].owner;
            if prefix.contains(owner) {
                let j = choose|j: int| 0 <= j < prefix.len() && prefix[j] == owner;
                assert(children[j] == owner);
            } else if owner == last {
                assert(children[children.len() - 1] == owner);
            } else {
                if children.contains(owner) {
                    let j = choose|j: int| 0 <= j < children.len() && children[j] == owner;
                    if j < prefix.len() {
                        assert(prefix[j] == owner);
                    }
                }
            }
            if h == parent {
                assert(prefix.push(last) =~= children);
            }
        }
    }
}

/// An aggregate made without members to which `children` were appended one
/// after the other has as many members as were appended, and room for
/// them: the room it was made with where that is enough, else just as much
/// as they take. The member at each place is the child appended at that
/// turn, holding and tagged with what it held and was tagged with before.
/// Where the tag of the aggregate gives the field at a place a type, the
/// field at that place is that child; past the last child there is no
/// field.
pub proof fn lemma_aggregate_round_trip(state: EngineState, parent: usize, children: Seq<usize>)
    requires
        state.wf(),
        state.live(parent),
        state.content(parent) == Content::Aggregate(Seq::empty()),
        children.no_duplicates(),
        children.len() < u64::MAX,
        forall|i: int|
            0 <= i < children.len() ==> {
                &&& state.live(#[trigger] children[i])
                &&& state.is_root(children[i])
                &&& children[i] != state.owner(parent)
            },
    ensures
        appended_all(state, parent, children).wf(),
        appended_all(state, parent, children).live(parent),
        appended_all(state, parent, children).content(parent).member_count() == children.len(),
        appended_all(state, parent, children).room(parent) == if state.room(parent)
            < children.len() {
            children.len()
        } else {
            state.room(parent)
        },
        appended_all(state, parent, children).type_tag(parent) == state.type_tag(parent),
        forall|i: int|
            0 <= i < children.len() ==> {
                &&& appended_all(state, parent, children).live(#[trigger] children[i])
                &&& appended_all(state, parent, children).content(children[i]) == state.content(
                    children[i],
                )
                &&& appended_all(state, parent, children).type_tag(children[i]) == state.type_tag(
                    children[i],
                )
            },
        forall|index: u64|
            index < children.len() && field_type(state.type_tag(parent), index) is Some
                ==> #[trigger] field_handle(appended_all(state, parent, children), parent, index)
                == Some(children[index as int]),
        field_handle(appended_all(state, parent, children), parent, children.len() as u64) is None,
{
    let after = appended_all(state, parent, children);
    lemma_appended_all(state, parent, children);
    assert(state.resources[parent as int].owner == state.owner(parent));
    assert(state.resources[state.owner(parent) as int].owner == state.owner(parent));
    assert(!children.contains(state.owner(parent))) by {
        if children.contains(state.owner(parent)) {
            let j = choose|j: int| 0 <= j < children.len() && children[j] == state.owner(parent);
            assert(children[j] != state.owner(parent));
        }
    }
    assert(after.resources[state.owner(parent) as int].releases == 0);
    assert(after.resources[parent as int].owner == state.owner(parent));
    assert forall|i: int| 0 <= i < children.len() implies {
        &&& after.live(#[trigger] children[i])
        &&& after.content(children[i]) == state.content(children[i])
        &&& after.type_tag(children[i]) == state.type_tag(children[i])
    } by {
        let child = children[i];
        assert(state.resources[child as int].owner == child);
        assert(children.contains(child));
        assert(after.resources[child as int].owner == state.owner(parent));
        if child == parent {
            assert(state.owner(parent) == child);
        }
    }
}

/// What is written through one view of a resource is what every view of
/// it reads, the view that the aggregate hands out for that member
/// included: the write changes the content at the handle and leaves the
/// members of every other resource, and who belongs where, as they were.
pub proof fn lemma_write_is_shared(
    state: EngineState,
    parent: usize,
    index: u64,
    member: usize,
    content: Content,
)
    requires
        state.wf(),
        state.live(parent),
        field_handle(state, parent, index) == Some(member),
        content.members().len() == 0,
    ensures
        state.with_content(member, content).content(member) == content,
        field_handle(state.with_content(member, content), parent, index) == Some(member),
        state.with_content(member, content).live(member),
        state.with_content(member, content).live(parent),
{
    assert(state.resources[parent as int].owner == state.owner(parent));
    assert(state.members_wf(parent as int));
    assert(state.content(parent).members()[index as int] == member);
    assert(member != parent);
    assert(state.resources[member as int].owner == state.owner(parent));
    assert(state.resources[state.owner(parent) as int].owner == state.owner(parent));
}

} // verus!
