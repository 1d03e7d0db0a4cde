//! Typed handles on the values of a program.
//!
//! A value of a program, such as a constant or a parameter, is known to the
//! host by a handle, and the kind of its type says which wrapper the handle
//! gets. The handle is kept as a number; the null handle, 0, names no value.

use crate::types::TypeKind;
use vstd::prelude::*;

verus! {

/// A value of integer type.
#[derive(Debug, Clone, Copy, PartialEq, Eq, Structural)]
pub struct IntValue {
    pub value: usize,
}

/// A value of floating-point type.
#[derive(Debug, Clone, Copy, PartialEq, Eq, Structural)]
pub struct FloatValue {
    pub value: usize,
}

/// A value of pointer type.
#[derive(Debug, Clone, Copy, PartialEq, Eq, Structural)]
pub struct PointerValue {
    pub value: usize,
}

/// A value of structure type.
#[derive(Debug, Clone, Copy, PartialEq, Eq, Structural)]
pub struct StructValue {
    pub value: usize,
}

/// A value of array type.
#[derive(Debug, Clone, Copy, PartialEq, Eq, Structural)]
pub struct ArrayValue {
    pub value: usize,
}

/// A value of vector type.
#[derive(Debug, Clone, Copy, PartialEq, Eq, Structural)]
pub struct VectorValue {
    pub value: usize,
}

/// A value that can be stored, passed or returned.
#[derive(Debug, Clone, Copy, PartialEq, Eq, Structural)]
pub enum BasicValueEnum {
    ArrayValue(ArrayValue),
    IntValue(IntValue),
    FloatValue(FloatValue),
    PointerValue(PointerValue),
    StructValue(StructValue),
    VectorValue(VectorValue),
}

/// Whether a value whose type has this kind gets a wrapper: numbers,
/// pointers, structures and arrays do; vectors do not yet.
pub open spec fn wrapped_kind(kind: TypeKind) -> bool {
    kind.spec_is_basic() && kind != TypeKind::Vector
}

impl BasicValueEnum {
    /// The handle inside the wrapper.
    pub open spec fn spec_value_ref(&self) -> usize {
        match self {
            BasicValueEnum::ArrayValue(v) => v.value,
            BasicValueEnum::IntValue(v) => v.value,
            BasicValueEnum::FloatValue(v) => v.value,
            BasicValueEnum::PointerValue(v) => v.value,
            BasicValueEnum::StructValue(v) => v.value,
            BasicValueEnum::VectorValue(v) => v.value,
        }
    }

    /// Whether the wrapper is the one that a type of this kind asks for.
    pub open spec fn fits(self, kind: TypeKind) -> bool {
        match self {
            BasicValueEnum::ArrayValue(_) => kind == TypeKind::Array,
            BasicValueEnum::IntValue(_) => kind == TypeKind::Integer,
            BasicValueEnum::FloatValue(_) => kind.spec_float_kind() is Some,
            BasicValueEnum::PointerValue(_) => kind == TypeKind::Pointer,
            BasicValueEnum::StructValue(_) => kind == TypeKind::Struct,
            BasicValueEnum::VectorValue(_) => kind == TypeKind::Vector,
        }
    }

    /// Wraps the value at `value`, whose type has the kind `kind`. The null
    /// handle and the kinds that have no wrapper are not accepted.
    pub fn new(value: usize, kind: TypeKind) -> (wrapped: BasicValueEnum)
        requires
            value != 0,
            wrapped_kind(kind),
        ensures
            wrapped.spec_value_ref() == value,
            wrapped.fits(kind),
    {
        match kind {
            TypeKind::Float
            | TypeKind::Fp128
            | TypeKind::Double
            | TypeKind::Half
            | TypeKind::X86Fp80
            | TypeKind::PpcFp128 => BasicValueEnum::FloatValue(FloatValue { value }),
            TypeKind::Integer => BasicValueEnum::IntValue(IntValue { value }),
            TypeKind::Struct => BasicValueEnum::StructValue(StructValue { value }),
            TypeKind::Pointer => BasicValueEnum::PointerValue(PointerValue { value }),
            TypeKind::Array => BasicValueEnum::ArrayValue(ArrayValue { value }),
            _ => vstd::pervasive::unreached(),
        }
    }

    #[verifier::when_used_as_spec(spec_value_ref)]
    pub fn as_value_ref(&self) -> (value: usize)
        ensures
            value == self.spec_value_ref(),
    {
        match self {
            BasicValueEnum::ArrayValue(v) => v.value,
            BasicValueEnum::IntValue(v) => v.value,
            BasicValueEnum::FloatValue(v) => v.value,
            BasicValueEnum::PointerValue(v) => v.value,
            BasicValueEnum::StructValue(v) => v.value,
            BasicValueEnum::VectorValue(v) => v.value,
        }
    }

    pub fn into_int_value(self) -> (value: IntValue)
        requires
            self is IntValue,
        ensures
            self == BasicValueEnum::IntValue(value),
    {
        match self {
            BasicValueEnum::IntValue(v) => v,
            _ => vstd::pervasive::unreached(),
        }
    }

    pub fn into_float_value(self) -> (value: FloatValue)
        requires
            self is FloatValue,
        ensures
            self == BasicValueEnum::FloatValue(value),
    {
        match self {
            BasicValueEnum::FloatValue(v) => v,
            _ => vstd::pervasive::unreached(),
        }
    }

    pub fn into_pointer_value(self) -> (value: PointerValue)
        requires
            self is PointerValue,
        ensures
            self == BasicValueEnum::PointerValue(value),
    {
        match self {
            BasicValueEnum::PointerValue(v) => v,
            _ => vstd::pervasive::unreached(),
        }
    }

    pub fn into_struct_value(self) -> (value: StructValue)
        requires
            self is StructValue,
        ensures
            self == BasicValueEnum::StructValue(value),
    {
        match self {
            BasicValueEnum::StructValue(v) => v,
            _ => vstd::pervasive::unreached(),
        }
    }

    pub fn into_array_value(self) -> (value: ArrayValue)
        requires
            self is ArrayValue,
        ensures
            self == BasicValueEnum::ArrayValue(value),
    {
        match self {
            BasicValueEnum::ArrayValue(v) => v,
            _ => vstd::pervasive::unreached(),
        }
    }

    pub fn into_vector_value(self) -> (value: VectorValue)
        requires
            self is VectorValue,
        ensures
            self == BasicValueEnum::VectorValue(value),
    {
        match self {
            BasicValueEnum::VectorValue(v) => v,
            _ => vstd::pervasive::unreached(),
        }
    }

    pub fn as_int_value(&self) -> (value: &IntValue)
        requires
            self is IntValue,
        ensures
            *self == BasicValueEnum::IntValue(*value),
    {
        match self {
            BasicValueEnum::IntValue(v) => v,
            _ => vstd::pervasive::unreached(),
        }
    }

    pub fn as_float_value(&self) -> (value: &FloatValue)
        requires
            self is FloatValue,
        ensures
            *self == BasicValueEnum::FloatValue(*value),
    {
        match self {
            BasicValueEnum::FloatValue(v) => v,
            _ => vstd::pervasive::unreached(),
        }
    }

    pub fn as_pointer_value(&self) -> (value: &PointerValue)
        requires
            self is PointerValue,
        ensures
            *self == BasicValueEnum::PointerValue(*value),
    {
        match self {
            BasicValueEnum::PointerValue(v) => v,
            _ => vstd::pervasive::unreached(),
        }
    }

    pub fn as_struct_value(&self) -> (value: &StructValue)
        requires
            self is StructValue,
        ensures
            *self == BasicValueEnum::StructValue(*value),
    {
        match self {
            BasicValueEnum::StructValue(v) => v,
            _ => vstd::pervasive::unreached(),
        }
    }

    pub fn as_array_value(&self) -> (value: &ArrayValue)
        requires
            self is ArrayValue,
        ensures
            *self == BasicValueEnum::ArrayValue(*value),
    {
        match self {
            BasicValueEnum::ArrayValue(v) => v,
            _ => vstd::pervasive::unreached(),
        }
    }

    pub fn as_vector_value(&self) -> (value: &VectorValue)
        requires
            self is VectorValue,
        ensures
            *self == BasicValueEnum::VectorValue(*value),
    {
        match self {
            BasicValueEnum::VectorValue(v) => v,
            _ => vstd::pervasive::unreached(),
        }
    }

    pub fn is_int_value(&self) -> (is: bool)
        ensures
            is == (self is IntValue),
    {
        match self {
            BasicValueEnum::IntValue(_) => true,
            _ => false,
        }
    }

    pub fn is_float_value(&self) -> (is: bool)
        ensures
            is == (self is FloatValue),
    {
        match self {
            BasicValueEnum::FloatValue(_) => true,
            _ => false,
        }
    }

    pub fn is_pointer_value(&self) -> (is: bool)
        ensures
            is == (self is PointerValue),
    {
        match self {
            BasicValueEnum::PointerValue(_) => true,
            _ => false,
        }
    }

    pub fn is_struct_value(&self) -> (is: bool)
        ensures
            is == (self is StructValue),
    {
        match self {
            BasicValueEnum::StructValue(_) => true,
            _ => false,
        }
    }

    pub fn is_array_value(&self) -> (is: bool)
        ensures
            is == (self is ArrayValue),
    {
        match self {
            BasicValueEnum::ArrayValue(_) => true,
            _ => false,
        }
    }

    pub fn is_vector_value(&self) -> (is: bool)
        ensures
            is == (self is VectorValue),
    {
        match self {
            BasicValueEnum::VectorValue(_) => true,
            _ => false,
        }
    }
}

/// What a walk over the parameters of a function asks of the engine next.
#[derive(Debug, Clone, Copy, PartialEq, Eq, Structural)]
pub enum ParamQuery {
    /// The first parameter of the function at this handle.
    First(usize),
    /// The parameter after the one at this handle.
    Next(usize),
}

/// A walk over the parameters of a function, one step at a time. The host
/// puts the question of `query` to the engine and hands the answer to
/// `next`.
#[derive(Debug, Clone, Copy, PartialEq, Eq, Structural)]
pub struct ParamValueIter {
    pub param_iter_value: usize,
    pub start: bool,
}

impl ParamValueIter {
    /// A walk over the parameters of the function at `function` that has
    /// not begun.
    pub fn new(function: usize) -> (iter: Self)
        ensures
            iter == (ParamValueIter { param_iter_value: function, start: true }),
    {
        ParamValueIter { param_iter_value: function, start: true }
    }

    pub open spec fn spec_query(&self) -> ParamQuery {
        if self.start {
            ParamQuery::First(self.param_iter_value)
        } else {
            ParamQuery::Next(self.param_iter_value)
        }
    }

    /// What to ask the engine before the next step.
    #[verifier::when_used_as_spec(spec_query)]
    pub fn query(&self) -> (query: ParamQuery)
        ensures
            query == self.spec_query(),
    {
        if self.start {
            ParamQuery::First(self.param_iter_value)
        } else {
            ParamQuery::Next(self.param_iter_value)
        }
    }

    /// Takes the engine's answer to `query`: the handle `answer` of a
    /// parameter whose type has the kind `kind`, or the null handle where
    /// there is no such parameter. With a parameter the walk moves on to it
    /// and yields it; without one the walk stays where it is and yields
    /// nothing.
    pub fn next(&mut self, answer: usize, kind: TypeKind) -> (param: Option<BasicValueEnum>)
        requires
            answer != 0 ==> wrapped_kind(kind),
        ensures
            answer == 0 ==> param is None && *final(self) == *old(self),
            answer != 0 ==> {
                &&& param matches Some(value)
                &&& value.spec_value_ref() == answer
                &&& value.fits(kind)
                &&& *final(self) == (ParamValueIter { param_iter_value: answer, start: false })
            },
    {
        if self.start {
            let first_value: usize = answer;
            if first_value == 0 {
                return None;
            }
            self.start = false;
            self.param_iter_value = first_value;
            return Some(BasicValueEnum::new(first_value, kind));
        }
        let next_value: usize = answer;
        if next_value == 0 {
            return None;
        }
        self.param_iter_value = next_value;
        Some(BasicValueEnum::new(next_value, kind))
    }
}

impl From<ArrayValue> for BasicValueEnum {
    fn from(value: ArrayValue) -> (wrapped: BasicValueEnum) {
        BasicValueEnum::ArrayValue(value)
    }
}

impl vstd::std_specs::convert::FromSpecImpl<ArrayValue> for BasicValueEnum {
    open spec fn obeys_from_spec() -> bool {
        true
    }

    open spec fn from_spec(value: ArrayValue) -> BasicValueEnum {
        BasicValueEnum::ArrayValue(value)
    }
}

impl From<IntValue> for BasicValueEnum {
    fn from(value: IntValue) -> (wrapped: BasicValueEnum) {
        BasicValueEnum::IntValue(value)
    }
}

impl vstd::std_specs::convert::FromSpecImpl<IntValue> for BasicValueEnum {
    open spec fn obeys_from_spec() -> bool {
        true
    }

    open spec fn from_spec(value: IntValue) -> BasicValueEnum {
        BasicValueEnum::IntValue(value)
    }
}

impl From<FloatValue> for BasicValueEnum {
    fn from(value: FloatValue) -> (wrapped: BasicValueEnum) {
        BasicValueEnum::FloatValue(value)
    }
}

impl vstd::std_specs::convert::FromSpecImpl<FloatValue> for BasicValueEnum {
    open spec fn obeys_from_spec() -> bool {
        true
    }

    open spec fn from_spec(value: FloatValue) -> BasicValueEnum {
        BasicValueEnum::FloatValue(value)
    }
}

impl From<PointerValue> for BasicValueEnum {
    fn from(value: PointerValue) -> (wrapped: BasicValueEnum) {
        BasicValueEnum::PointerValue(value)
    }
}

impl vstd::std_specs::convert::FromSpecImpl<PointerValue> for BasicValueEnum {
    open spec fn obeys_from_spec() -> bool {
        true
    }

    open spec fn from_spec(value: PointerValue) -> BasicValueEnum {
        BasicValueEnum::PointerValue(value)
    }
}

impl From<StructValue> for BasicValueEnum {
    fn from(value: StructValue) -> (wrapped: BasicValueEnum) {
        BasicValueEnum::StructValue(value)
    }
}

impl vstd::std_specs::convert::FromSpecImpl<StructValue> for BasicValueEnum {
    open spec fn obeys_from_spec() -> bool {
        true
    }

    open spec fn from_spec(value: StructValue) -> BasicValueEnum {
        BasicValueEnum::StructValue(value)
    }
}

impl From<VectorValue> for BasicValueEnum {
    fn from(value: VectorValue) -> (wrapped: BasicValueEnum) {
        BasicValueEnum::VectorValue(value)
    }
}

impl vstd::std_specs::convert::FromSpecImpl<VectorValue> for BasicValueEnum {
    open spec fn obeys_from_spec() -> bool {
        true
    }

    open spec fn from_spec(value: VectorValue) -> BasicValueEnum {
        BasicValueEnum::VectorValue(value)
    }
}

} // verus!
