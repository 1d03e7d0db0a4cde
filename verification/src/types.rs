//! Descriptions of the shapes that runtime values have.
//!
//! A description is a plain value: an integer type is its width, a structure
//! type is the list of its field types, and so on. The engine attaches such a
//! description to a value as its type tag; the marshaling code reads it to
//! tell which accessor fits and how an aggregate splits into fields.
//!
//! Pointers are opaque: a pointer type records its address space and not
//! what it points to. Structure types are literal: each one has a body.

use vstd::prelude::*;

verus! {

/// The kinds of type that the engine tells apart.
#[derive(Debug, Clone, Copy, PartialEq, Eq, Structural)]
pub enum TypeKind {
    Void,
    Half,
    Float,
    Double,
    X86Fp80,
    Fp128,
    PpcFp128,
    Label,
    Integer,
    Function,
    Struct,
    Array,
    Pointer,
    Vector,
    Metadata,
    X86Mmx,
}

/// The precisions of floating-point type.
#[derive(Debug, Clone, Copy, PartialEq, Eq, Structural)]
pub enum FloatKind {
    Half,
    Float,
    Double,
    X86Fp80,
    Fp128,
    PpcFp128,
}

impl FloatKind {
    pub open spec fn spec_kind(self) -> TypeKind {
        match self {
            FloatKind::Half => TypeKind::Half,
            FloatKind::Float => TypeKind::Float,
            FloatKind::Double => TypeKind::Double,
            FloatKind::X86Fp80 => TypeKind::X86Fp80,
            FloatKind::Fp128 => TypeKind::Fp128,
            FloatKind::PpcFp128 => TypeKind::PpcFp128,
        }
    }

    /// The type kind of a floating-point type of this precision.
    #[verifier::when_used_as_spec(spec_kind)]
    pub fn kind(self) -> (kind: TypeKind)
        ensures
            kind == self.spec_kind(),
    {
        match self {
            FloatKind::Half => TypeKind::Half,
            FloatKind::Float => TypeKind::Float,
            FloatKind::Double => TypeKind::Double,
            FloatKind::X86Fp80 => TypeKind::X86Fp80,
            FloatKind::Fp128 => TypeKind::Fp128,
            FloatKind::PpcFp128 => TypeKind::PpcFp128,
        }
    }
}

impl TypeKind {
    /// The floating-point precision that this kind names, if it names one.
    pub open spec fn spec_float_kind(self) -> Option<FloatKind> {
        match self {
            TypeKind::Half => Some(FloatKind::Half),
            TypeKind::Float => Some(FloatKind::Float),
            TypeKind::Double => Some(FloatKind::Double),
            TypeKind::X86Fp80 => Some(FloatKind::X86Fp80),
            TypeKind::Fp128 => Some(FloatKind::Fp128),
            TypeKind::PpcFp128 => Some(FloatKind::PpcFp128),
            _ => None,
        }
    }

    /// Whether a type of this kind can be the type of a value that is
    /// stored, passed or returned: a number, a pointer or an aggregate.
    pub open spec fn spec_is_basic(self) -> bool {
        ||| self.spec_float_kind() is Some
        ||| self == TypeKind::Integer
        ||| self == TypeKind::Struct
        ||| self == TypeKind::Pointer
        ||| self == TypeKind::Array
        ||| self == TypeKind::Vector
    }

    /// Whether a type of this kind has a description at all. Labels,
    /// metadata and MMX vectors have none.
    pub open spec fn spec_is_described(self) -> bool {
        ||| self.spec_is_basic()
        ||| self == TypeKind::Void
        ||| self == TypeKind::Function
    }

    #[verifier::when_used_as_spec(spec_float_kind)]
    pub fn float_kind(self) -> (kind: Option<FloatKind>)
        ensures
            kind == self.spec_float_kind(),
    {
        match self {
            TypeKind::Half => Some(FloatKind::Half),
            TypeKind::Float => Some(FloatKind::Float),
            TypeKind::Double => Some(FloatKind::Double),
            TypeKind::X86Fp80 => Some(FloatKind::X86Fp80),
            TypeKind::Fp128 => Some(FloatKind::Fp128),
            TypeKind::PpcFp128 => Some(FloatKind::PpcFp128),
            _ => None,
        }
    }

    #[verifier::when_used_as_spec(spec_is_basic)]
    pub fn is_basic(self) -> (basic: bool)
        ensures
            basic == self.spec_is_basic(),
    {
        match self {
            TypeKind::Half
            | TypeKind::Float
            | TypeKind::Double
            | TypeKind::X86Fp80
            | TypeKind::Fp128
            | TypeKind::PpcFp128
            | TypeKind::Integer
            | TypeKind::Struct
            | TypeKind::Pointer
            | TypeKind::Array
            | TypeKind::Vector => true,
            _ => false,
        }
    }

    #[verifier::when_used_as_spec(spec_is_described)]
    pub fn is_described(self) -> (described: bool)
        ensures
            described == self.spec_is_described(),
    {
        match self {
            TypeKind::Label | TypeKind::Metadata | TypeKind::X86Mmx => false,
            _ => true,
        }
    }
}

/// An integer type: its width in bits.
#[derive(Debug, Clone, Copy, PartialEq, Eq, Structural)]
pub struct IntType {
    pub bit_width: u32,
}

/// A floating-point type: its precision.
#[derive(Debug, Clone, Copy, PartialEq, Eq, Structural)]
pub struct FloatType {
    pub kind: FloatKind,
}

/// A pointer type: its address space.
#[derive(Debug, Clone, Copy, PartialEq, Eq, Structural)]
pub struct PointerType {
    pub address_space: u32,
}

/// The type of no value.
#[derive(Debug, Clone, Copy, PartialEq, Eq, Structural)]
pub struct VoidType {}

/// A structure type: the types of its fields in order, and whether they are
/// laid out without padding.
#[derive(Debug, PartialEq, Eq)]
pub struct StructType {
    pub field_types: Vec<BasicTypeEnum>,
    pub packed: bool,
}

/// An array type: the type of each element and their number.
#[derive(Debug, PartialEq, Eq)]
pub struct ArrayType {
    pub element: Box<BasicTypeEnum>,
    pub len: u32,
}

/// A vector type: the type of each lane and their number.
#[derive(Debug, PartialEq, Eq)]
pub struct VectorType {
    pub element: Box<BasicTypeEnum>,
    pub size: u32,
}

/// A function type: what it returns, what it takes, and whether it takes
/// further arguments after those.
#[derive(Debug, PartialEq, Eq)]
pub struct FunctionType {
    pub return_type: Box<AnyTypeEnum>,
    pub param_types: Vec<BasicTypeEnum>,
    pub var_arg: bool,
}

/// Any type that has a description.
#[derive(Debug, PartialEq, Eq)]
pub enum AnyTypeEnum {
    IntType(IntType),
    FunctionType(FunctionType),
    FloatType(FloatType),
    PointerType(PointerType),
    StructType(StructType),
    ArrayType(ArrayType),
    VoidType(VoidType),
    VectorType(VectorType),
}

/// The type of a value that can be stored, passed or returned.
#[derive(Debug, PartialEq, Eq)]
pub enum BasicTypeEnum {
    IntType(IntType),
    FloatType(FloatType),
    PointerType(PointerType),
    StructType(StructType),
    ArrayType(ArrayType),
    VectorType(VectorType),
}

/// Whether two descriptions of basic types say the same.
pub open spec fn same_basic_type(a: BasicTypeEnum, b: BasicTypeEnum) -> bool
    decreases a,
{
    match (a, b) {
        (BasicTypeEnum::IntType(x), BasicTypeEnum::IntType(y)) => x == y,
        (BasicTypeEnum::FloatType(x), BasicTypeEnum::FloatType(y)) => x == y,
        (BasicTypeEnum::PointerType(x), BasicTypeEnum::PointerType(y)) => x == y,
        (BasicTypeEnum::StructType(x), BasicTypeEnum::StructType(y)) => {
            &&& x.packed == y.packed
            &&& same_basic_types(x.field_types@, y.field_types@)
        },
        (BasicTypeEnum::ArrayType(x), BasicTypeEnum::ArrayType(y)) => {
            &&& x.len == y.len
            &&& same_basic_type(*x.element, *y.element)
        },
        (BasicTypeEnum::VectorType(x), BasicTypeEnum::VectorType(y)) => {
            &&& x.size == y.size
            &&& same_basic_type(*x.element, *y.element)
        },
        _ => false,
    }
}

/// Whether two runs of descriptions of basic types say the same, place by
/// place.
pub open spec fn same_basic_types(a: Seq<BasicTypeEnum>, b: Seq<BasicTypeEnum>) -> bool
    decreases a,
{
    &&& a.len() == b.len()
    &&& forall|i: int| 0 <= i < a.len() ==> same_basic_type(#[trigger] a[i], b[i])
}

/// Whether two descriptions of types say the same.
pub open spec fn same_type(a: AnyTypeEnum, b: AnyTypeEnum) -> bool
    decreases a,
{
    match (a, b) {
        (AnyTypeEnum::VoidType(_), AnyTypeEnum::VoidType(_)) => true,
        (AnyTypeEnum::FunctionType(x), AnyTypeEnum::FunctionType(y)) => {
            &&& x.var_arg == y.var_arg
            &&& same_basic_types(x.param_types@, y.param_types@)
            &&& same_type(*x.return_type, *y.return_type)
        },
        (AnyTypeEnum::IntType(x), AnyTypeEnum::IntType(y)) => x == y,
        (AnyTypeEnum::FloatType(x), AnyTypeEnum::FloatType(y)) => x == y,
        (AnyTypeEnum::PointerType(x), AnyTypeEnum::PointerType(y)) => x == y,
        (AnyTypeEnum::StructType(x), AnyTypeEnum::StructType(y)) => same_basic_type(
            BasicTypeEnum::StructType(x),
            BasicTypeEnum::StructType(y),
        ),
        (AnyTypeEnum::ArrayType(x), AnyTypeEnum::ArrayType(y)) => same_basic_type(
            BasicTypeEnum::ArrayType(x),
            BasicTypeEnum::ArrayType(y),
        ),
        (AnyTypeEnum::VectorType(x), AnyTypeEnum::VectorType(y)) => same_basic_type(
            BasicTypeEnum::VectorType(x),
            BasicTypeEnum::VectorType(y),
        ),
        _ => false,
    }
}

/// A copy of each of the given descriptions.
#[verifier::loop_isolation(false)]
fn duplicate_all(types: &Vec<BasicTypeEnum>) -> (copies: Vec<BasicTypeEnum>)
    ensures
        same_basic_types(types@, copies@),
    decreases types,
{
    let mut copies: Vec<BasicTypeEnum> = Vec::new();
    let mut index: usize = 0;
    while index < types.len()
        invariant
            index <= types@.len(),
            copies@.len() == index,
            forall|i: int| 0 <= i < index ==> same_basic_type(#[trigger] types@[i], copies@[i]),
        decreases types@.len() - index,
    {
        copies.push(duplicate(&types[index]));
        index = index + 1;
    }
    copies
}

/// A copy of the given description.
fn duplicate(ty: &BasicTypeEnum) -> (copy: BasicTypeEnum)
    ensures
        same_basic_type(*ty, copy),
    decreases ty,
{
    match ty {
        BasicTypeEnum::IntType(t) => BasicTypeEnum::IntType(*t),
        BasicTypeEnum::FloatType(t) => BasicTypeEnum::FloatType(*t),
        BasicTypeEnum::PointerType(t) => BasicTypeEnum::PointerType(*t),
        BasicTypeEnum::StructType(t) => BasicTypeEnum::StructType(
            StructType { field_types: duplicate_all(&t.field_types), packed: t.packed },
        ),
        BasicTypeEnum::ArrayType(t) => BasicTypeEnum::ArrayType(
            ArrayType { element: Box::new(duplicate(&*t.element)), len: t.len },
        ),
        BasicTypeEnum::VectorType(t) => BasicTypeEnum::VectorType(
            VectorType { element: Box::new(duplicate(&*t.element)), size: t.size },
        ),
    }
}

/// A copy of the given description.
fn duplicate_any(ty: &AnyTypeEnum) -> (copy: AnyTypeEnum)
    ensures
        same_type(*ty, copy),
    decreases ty,
{
    match ty {
        AnyTypeEnum::IntType(t) => AnyTypeEnum::IntType(*t),
        AnyTypeEnum::FunctionType(t) => AnyTypeEnum::FunctionType(
            FunctionType {
                return_type: Box::new(duplicate_any(&*t.return_type)),
                param_types: duplicate_all(&t.param_types),
                var_arg: t.var_arg,
            },
        ),
        AnyTypeEnum::FloatType(t) => AnyTypeEnum::FloatType(*t),
        AnyTypeEnum::PointerType(t) => AnyTypeEnum::PointerType(*t),
        AnyTypeEnum::StructType(t) => AnyTypeEnum::StructType(
            StructType { field_types: duplicate_all(&t.field_types), packed: t.packed },
        ),
        AnyTypeEnum::ArrayType(t) => AnyTypeEnum::ArrayType(
            ArrayType { element: Box::new(duplicate(&*t.element)), len: t.len },
        ),
        AnyTypeEnum::VoidType(t) => AnyTypeEnum::VoidType(*t),
        AnyTypeEnum::VectorType(t) => AnyTypeEnum::VectorType(
            VectorType { element: Box::new(duplicate(&*t.element)), size: t.size },
        ),
    }
}

impl Clone for BasicTypeEnum {
    fn clone(&self) -> (copy: Self)
        ensures
            same_basic_type(*self, copy),
    {
        duplicate(self)
    }
}

impl Clone for AnyTypeEnum {
    fn clone(&self) -> (copy: Self)
        ensures
            same_type(*self, copy),
    {
        duplicate_any(self)
    }
}

impl Clone for StructType {
    fn clone(&self) -> (copy: Self)
        ensures
            same_basic_type(BasicTypeEnum::StructType(*self), BasicTypeEnum::StructType(copy)),
    {
        StructType { field_types: duplicate_all(&self.field_types), packed: self.packed }
    }
}

impl Clone for ArrayType {
    fn clone(&self) -> (copy: Self)
        ensures
            same_basic_type(BasicTypeEnum::ArrayType(*self), BasicTypeEnum::ArrayType(copy)),
    {
        ArrayType { element: Box::new(duplicate(&*self.element)), len: self.len }
    }
}

impl Clone for VectorType {
    fn clone(&self) -> (copy: Self)
        ensures
            same_basic_type(BasicTypeEnum::VectorType(*self), BasicTypeEnum::VectorType(copy)),
    {
        VectorType { element: Box::new(duplicate(&*self.element)), size: self.size }
    }
}

impl Clone for FunctionType {
    fn clone(&self) -> (copy: Self)
        ensures
            same_type(AnyTypeEnum::FunctionType(*self), AnyTypeEnum::FunctionType(copy)),
    {
        FunctionType {
            return_type: Box::new(duplicate_any(&*self.return_type)),
            param_types: duplicate_all(&self.param_types),
            var_arg: self.var_arg,
        }
    }
}

impl IntType {
    pub fn bool_type() -> (ty: Self)
        ensures
            ty.bit_width == 1,
    {
        IntType { bit_width: 1 }
    }

    pub fn i8_type() -> (ty: Self)
        ensures
            ty.bit_width == 8,
    {
        IntType { bit_width: 8 }
    }

    pub fn i16_type() -> (ty: Self)
        ensures
            ty.bit_width == 16,
    {
        IntType { bit_width: 16 }
    }

    pub fn i32_type() -> (ty: Self)
        ensures
            ty.bit_width == 32,
    {
        IntType { bit_width: 32 }
    }

    pub fn i64_type() -> (ty: Self)
        ensures
            ty.bit_width == 64,
    {
        IntType { bit_width: 64 }
    }

    pub fn i128_type() -> (ty: Self)
        ensures
            ty.bit_width == 128,
    {
        IntType { bit_width: 128 }
    }

    pub fn custom_width_int_type(bits: u32) -> (ty: Self)
        ensures
            ty.bit_width == bits,
    {
        IntType { bit_width: bits }
    }

    pub fn get_bit_width(&self) -> (bits: u32)
        ensures
            bits == self.bit_width,
    {
        self.bit_width
    }

    /// The type of a function that returns an integer of this type.
    pub fn fn_type(&self, param_types: Vec<BasicTypeEnum>, is_var_args: bool) -> (ty: FunctionType)
        ensures
            *ty.return_type == AnyTypeEnum::IntType(*self),
            ty.param_types == param_types,
            ty.var_arg == is_var_args,
    {
        FunctionType {
            return_type: Box::new(AnyTypeEnum::IntType(*self)),
            param_types,
            var_arg: is_var_args,
        }
    }

    pub fn array_type(&self, size: u32) -> (ty: ArrayType)
        ensures
            *ty.element == BasicTypeEnum::IntType(*self),
            ty.len == size,
    {
        ArrayType { element: Box::new(BasicTypeEnum::IntType(*self)), len: size }
    }

    pub fn vec_type(&self, size: u32) -> (ty: VectorType)
        ensures
            *ty.element == BasicTypeEnum::IntType(*self),
            ty.size == size,
    {
        VectorType { element: Box::new(BasicTypeEnum::IntType(*self)), size }
    }

    pub fn ptr_type(&self, address_space: u32) -> (ty: PointerType)
        ensures
            ty.address_space == address_space,
    {
        PointerType { address_space }
    }

    pub fn is_sized(&self) -> (sized: bool)
        ensures
            sized,
    {
        true
    }
}

impl FloatType {
    pub fn f16_type() -> (ty: Self)
        ensures
            ty.kind == FloatKind::Half,
    {
        FloatType { kind: FloatKind::Half }
    }

    pub fn f32_type() -> (ty: Self)
        ensures
            ty.kind == FloatKind::Float,
    {
        FloatType { kind: FloatKind::Float }
    }

    pub fn f64_type() -> (ty: Self)
        ensures
            ty.kind == FloatKind::Double,
    {
        FloatType { kind: FloatKind::Double }
    }

    /// The 128-bit IEEE floating-point type.
    pub fn i128_type() -> (ty: Self)
        ensures
            ty.kind == FloatKind::Fp128,
    {
        FloatType { kind: FloatKind::Fp128 }
    }

    /// The 128-bit floating-point type made of two 64-bit halves.
    pub fn f128_type_ppc() -> (ty: Self)
        ensures
            ty.kind == FloatKind::PpcFp128,
    {
        FloatType { kind: FloatKind::PpcFp128 }
    }

    pub fn fn_type(&self, param_types: Vec<BasicTypeEnum>, is_var_args: bool) -> (ty: FunctionType)
        ensures
            *ty.return_type == AnyTypeEnum::FloatType(*self),
            ty.param_types == param_types,
            ty.var_arg == is_var_args,
    {
        FunctionType {
            return_type: Box::new(AnyTypeEnum::FloatType(*self)),
            param_types,
            var_arg: is_var_args,
        }
    }

    pub fn array_type(&self, size: u32) -> (ty: ArrayType)
        ensures
            *ty.element == BasicTypeEnum::FloatType(*self),
            ty.len == size,
    {
        ArrayType { element: Box::new(BasicTypeEnum::FloatType(*self)), len: size }
    }

    pub fn vec_type(&self, size: u32) -> (ty: VectorType)
        ensures
            *ty.element == BasicTypeEnum::FloatType(*self),
            ty.size == size,
    {
        VectorType { element: Box::new(BasicTypeEnum::FloatType(*self)), size }
    }

    pub fn ptr_type(&self, address_space: u32) -> (ty: PointerType)
        ensures
            ty.address_space == address_space,
    {
        PointerType { address_space }
    }

    pub fn is_sized(&self) -> (sized: bool)
        ensures
            sized,
    {
        true
    }
}

impl PointerType {
    pub fn get_address_space(&self) -> (space: u32)
        ensures
            space == self.address_space,
    {
        self.address_space
    }

    /// The type of a pointer, in the given address space, to a pointer of
    /// this type.
    pub fn ptr_type(&self, address_space: u32) -> (ty: PointerType)
        ensures
            ty.address_space == address_space,
    {
        PointerType { address_space }
    }

    pub fn fn_type(&self, param_types: Vec<BasicTypeEnum>, is_var_args: bool) -> (ty: FunctionType)
        ensures
            *ty.return_type == AnyTypeEnum::PointerType(*self),
            ty.param_types == param_types,
            ty.var_arg == is_var_args,
    {
        FunctionType {
            return_type: Box::new(AnyTypeEnum::PointerType(*self)),
            param_types,
            var_arg: is_var_args,
        }
    }

    pub fn array_type(&self, size: u32) -> (ty: ArrayType)
        ensures
            *ty.element == BasicTypeEnum::PointerType(*self),
            ty.len == size,
    {
        ArrayType { element: Box::new(BasicTypeEnum::PointerType(*self)), len: size }
    }

    pub fn is_sized(&self) -> (sized: bool)
        ensures
            sized,
    {
        true
    }
}

impl VoidType {
    pub fn void_type() -> (ty: Self) {
        VoidType {  }
    }

    pub fn fn_type(&self, param_types: Vec<BasicTypeEnum>, is_var_args: bool) -> (ty: FunctionType)
        ensures
            *ty.return_type == AnyTypeEnum::VoidType(*self),
            ty.param_types == param_types,
            ty.var_arg == is_var_args,
    {
        FunctionType {
            return_type: Box::new(AnyTypeEnum::VoidType(*self)),
            param_types,
            var_arg: is_var_args,
        }
    }

    pub fn ptr_type(&self, address_space: u32) -> (ty: PointerType)
        ensures
            ty.address_space == address_space,
    {
        PointerType { address_space }
    }

    pub fn is_sized(&self) -> (sized: bool)
        ensures
            !sized,
    {
        false
    }
}

impl StructType {
    /// The literal structure type with the given fields.
    pub fn struct_type(field_types: Vec<BasicTypeEnum>, packed: bool) -> (ty: Self)
        ensures
            ty.field_types == field_types,
            ty.packed == packed,
    {
        StructType { field_types, packed }
    }

    /// The number of fields. A structure type has fewer than 2 to the 32.
    pub fn count_field_types(&self) -> (count: u32)
        requires
            self.field_types@.len() <= u32::MAX,
        ensures
            count == self.field_types@.len(),
    {
        self.field_types.len() as u32
    }

    pub fn get_field_types(&self) -> (fields: &Vec<BasicTypeEnum>)
        ensures
            *fields == self.field_types,
    {
        &self.field_types
    }

    /// The type of the field at `index`, or nothing where the structure has
    /// no such field.
    pub fn get_type_at_field_index(&self, index: u32) -> (field: Option<&BasicTypeEnum>)
        ensures
            index < self.field_types@.len() ==> field == Some(&self.field_types@[index as int]),
            index >= self.field_types@.len() ==> field is None,
    {
        if (index as usize) < self.field_types.len() {
            Some(&self.field_types[index as usize])
        } else {
            None
        }
    }

    pub fn is_packed(&self) -> (packed: bool)
        ensures
            packed == self.packed,
    {
        self.packed
    }

    /// Whether the structure has no body. A literal structure always has one.
    pub fn is_opaque(&self) -> (opaque: bool)
        ensures
            !opaque,
    {
        false
    }

    pub fn fn_type(self, param_types: Vec<BasicTypeEnum>, is_var_args: bool) -> (ty: FunctionType)
        ensures
            *ty.return_type == AnyTypeEnum::StructType(self),
            ty.param_types == param_types,
            ty.var_arg == is_var_args,
    {
        FunctionType {
            return_type: Box::new(AnyTypeEnum::StructType(self)),
            param_types,
            var_arg: is_var_args,
        }
    }

    pub fn array_type(self, size: u32) -> (ty: ArrayType)
        ensures
            *ty.element == BasicTypeEnum::StructType(self),
            ty.len == size,
    {
        ArrayType { element: Box::new(BasicTypeEnum::StructType(self)), len: size }
    }

    pub fn ptr_type(&self, address_space: u32) -> (ty: PointerType)
        ensures
            ty.address_space == address_space,
    {
        PointerType { address_space }
    }

    pub fn is_sized(&self) -> (sized: bool)
        ensures
            sized,
    {
        true
    }
}

impl ArrayType {
    pub fn len(&self) -> (len: u32)
        ensures
            len == self.len,
    {
        self.len
    }

    pub fn get_element_type(&self) -> (element: &BasicTypeEnum)
        ensures
            *element == *self.element,
    {
        &*self.element
    }

    pub fn fn_type(self, param_types: Vec<BasicTypeEnum>, is_var_args: bool) -> (ty: FunctionType)
        ensures
            *ty.return_type == AnyTypeEnum::ArrayType(self),
            ty.param_types == param_types,
            ty.var_arg == is_var_args,
    {
        FunctionType {
            return_type: Box::new(AnyTypeEnum::ArrayType(self)),
            param_types,
            var_arg: is_var_args,
        }
    }

    pub fn array_type(self, size: u32) -> (ty: ArrayType)
        ensures
            *ty.element == BasicTypeEnum::ArrayType(self),
            ty.len == size,
    {
        ArrayType { element: Box::new(BasicTypeEnum::ArrayType(self)), len: size }
    }

    pub fn ptr_type(&self, address_space: u32) -> (ty: PointerType)
        ensures
            ty.address_space == address_space,
    {
        PointerType { address_space }
    }

    pub fn is_sized(&self) -> (sized: bool)
        ensures
            sized,
    {
        true
    }
}

impl VectorType {
    pub fn size(&self) -> (size: u32)
        ensures
            size == self.size,
    {
        self.size
    }

    pub fn get_element_type(&self) -> (element: &BasicTypeEnum)
        ensures
            *element == *self.element,
    {
        &*self.element
    }
}

impl FunctionType {
    pub fn is_var_arg(&self) -> (var_arg: bool)
        ensures
            var_arg == self.var_arg,
    {
        self.var_arg
    }

    pub fn get_param_types(&self) -> (params: &Vec<BasicTypeEnum>)
        ensures
            *params == self.param_types,
    {
        &self.param_types
    }

    /// The number of parameters. A function type has fewer than 2 to the 32.
    pub fn count_param_types(&self) -> (count: u32)
        requires
            self.param_types@.len() <= u32::MAX,
        ensures
            count == self.param_types@.len(),
    {
        self.param_types.len() as u32
    }

    pub fn get_return_type(&self) -> (ret: &AnyTypeEnum)
        ensures
            *ret == *self.return_type,
    {
        &*self.return_type
    }

    pub fn is_sized(&self) -> (sized: bool)
        ensures
            !sized,
    {
        false
    }
}

impl AnyTypeEnum {
    pub open spec fn spec_kind(&self) -> TypeKind {
        match self {
            AnyTypeEnum::IntType(_) => TypeKind::Integer,
            AnyTypeEnum::FunctionType(_) => TypeKind::Function,
            AnyTypeEnum::FloatType(t) => t.kind.spec_kind(),
            AnyTypeEnum::PointerType(_) => TypeKind::Pointer,
            AnyTypeEnum::StructType(_) => TypeKind::Struct,
            AnyTypeEnum::ArrayType(_) => TypeKind::Array,
            AnyTypeEnum::VoidType(_) => TypeKind::Void,
            AnyTypeEnum::VectorType(_) => TypeKind::Vector,
        }
    }

    /// The kind of this type.
    #[verifier::when_used_as_spec(spec_kind)]
    pub fn kind(&self) -> (kind: TypeKind)
        ensures
            kind == self.spec_kind(),
            kind.spec_is_described(),
    {
        match self {
            AnyTypeEnum::IntType(_) => TypeKind::Integer,
            AnyTypeEnum::FunctionType(_) => TypeKind::Function,
            AnyTypeEnum::FloatType(t) => t.kind.kind(),
            AnyTypeEnum::PointerType(_) => TypeKind::Pointer,
            AnyTypeEnum::StructType(_) => TypeKind::Struct,
            AnyTypeEnum::ArrayType(_) => TypeKind::Array,
            AnyTypeEnum::VoidType(_) => TypeKind::Void,
            AnyTypeEnum::VectorType(_) => TypeKind::Vector,
        }
    }
}

impl BasicTypeEnum {
    /// This type among all types.
    pub open spec fn as_any(self) -> AnyTypeEnum {
        match self {
            BasicTypeEnum::IntType(t) => AnyTypeEnum::IntType(t),
            BasicTypeEnum::FloatType(t) => AnyTypeEnum::FloatType(t),
            BasicTypeEnum::PointerType(t) => AnyTypeEnum::PointerType(t),
            BasicTypeEnum::StructType(t) => AnyTypeEnum::StructType(t),
            BasicTypeEnum::ArrayType(t) => AnyTypeEnum::ArrayType(t),
            BasicTypeEnum::VectorType(t) => AnyTypeEnum::VectorType(t),
        }
    }

    pub open spec fn spec_kind(&self) -> TypeKind {
        self.as_any().spec_kind()
    }

    /// Narrows a type to a basic type. Void and function types are none and
    /// are not accepted.
    pub fn new(ty: AnyTypeEnum) -> (basic: BasicTypeEnum)
        requires
            ty.spec_kind().spec_is_basic(),
        ensures
            basic.as_any() == ty,
    {
        match ty {
            AnyTypeEnum::IntType(t) => BasicTypeEnum::IntType(t),
            AnyTypeEnum::FloatType(t) => BasicTypeEnum::FloatType(t),
            AnyTypeEnum::PointerType(t) => BasicTypeEnum::PointerType(t),
            AnyTypeEnum::StructType(t) => BasicTypeEnum::StructType(t),
            AnyTypeEnum::ArrayType(t) => BasicTypeEnum::ArrayType(t),
            AnyTypeEnum::VectorType(t) => BasicTypeEnum::VectorType(t),
            AnyTypeEnum::FunctionType(_) => vstd::pervasive::unreached(),
            AnyTypeEnum::VoidType(_) => vstd::pervasive::unreached(),
        }
    }

    /// The kind of this type.
    #[verifier::when_used_as_spec(spec_kind)]
    pub fn kind(&self) -> (kind: TypeKind)
        ensures
            kind == self.spec_kind(),
            kind.spec_is_basic(),
    {
        match self {
            BasicTypeEnum::IntType(_) => TypeKind::Integer,
            BasicTypeEnum::FloatType(t) => t.kind.kind(),
            BasicTypeEnum::PointerType(_) => TypeKind::Pointer,
            BasicTypeEnum::StructType(_) => TypeKind::Struct,
            BasicTypeEnum::ArrayType(_) => TypeKind::Array,
            BasicTypeEnum::VectorType(_) => TypeKind::Vector,
        }
    }

    pub fn into_int_type(self) -> (ty: IntType)
        requires
            self is IntType,
        ensures
            self == BasicTypeEnum::IntType(ty),
    {
        match self {
            BasicTypeEnum::IntType(t) => t,
            _ => vstd::pervasive::unreached(),
        }
    }

    pub fn into_float_type(self) -> (ty: FloatType)
        requires
            self is FloatType,
        ensures
            self == BasicTypeEnum::FloatType(ty),
    {
        match self {
            BasicTypeEnum::FloatType(t) => t,
            _ => vstd::pervasive::unreached(),
        }
    }

    pub fn into_pointer_type(self) -> (ty: PointerType)
        requires
            self is PointerType,
        ensures
            self == BasicTypeEnum::PointerType(ty),
    {
        match self {
            BasicTypeEnum::PointerType(t) => t,
            _ => vstd::pervasive::unreached(),
        }
    }

    pub fn into_struct_type(self) -> (ty: StructType)
        requires
            self is StructType,
        ensures
            self == BasicTypeEnum::StructType(ty),
    {
        match self {
            BasicTypeEnum::StructType(t) => t,
            _ => vstd::pervasive::unreached(),
        }
    }

    pub fn into_array_type(self) -> (ty: ArrayType)
        requires
            self is ArrayType,
        ensures
            self == BasicTypeEnum::ArrayType(ty),
    {
        match self {
            BasicTypeEnum::ArrayType(t) => t,
            _ => vstd::pervasive::unreached(),
        }
    }

    pub fn into_vector_type(self) -> (ty: VectorType)
        requires
            self is VectorType,
        ensures
            self == BasicTypeEnum::VectorType(ty),
    {
        match self {
            BasicTypeEnum::VectorType(t) => t,
            _ => vstd::pervasive::unreached(),
        }
    }

    pub fn as_int_type(&self) -> (ty: &IntType)
        requires
            self is IntType,
        ensures
            *self == BasicTypeEnum::IntType(*ty),
    {
        match self {
            BasicTypeEnum::IntType(t) => t,
            _ => vstd::pervasive::unreached(),
        }
    }

    pub fn as_float_type(&self) -> (ty: &FloatType)
        requires
            self is FloatType,
        ensures
            *self == BasicTypeEnum::FloatType(*ty),
    {
        match self {
            BasicTypeEnum::FloatType(t) => t,
            _ => vstd::pervasive::unreached(),
        }
    }

    pub fn as_pointer_type(&self) -> (ty: &PointerType)
        requires
            self is PointerType,
        ensures
            *self == BasicTypeEnum::PointerType(*ty),
    {
        match self {
            BasicTypeEnum::PointerType(t) => t,
            _ => vstd::pervasive::unreached(),
        }
    }

    pub fn as_struct_type(&self) -> (ty: &StructType)
        requires
            self is StructType,
        ensures
            *self == BasicTypeEnum::StructType(*ty),
    {
        match self {
            BasicTypeEnum::StructType(t) => t,
            _ => vstd::pervasive::unreached(),
        }
    }

    pub fn as_array_type(&self) -> (ty: &ArrayType)
        requires
            self is ArrayType,
        ensures
            *self == BasicTypeEnum::ArrayType(*ty),
    {
        match self {
            BasicTypeEnum::ArrayType(t) => t,
            _ => vstd::pervasive::unreached(),
        }
    }

    pub fn as_vector_type(&self) -> (ty: &VectorType)
        requires
            self is VectorType,
        ensures
            *self == BasicTypeEnum::VectorType(*ty),
    {
        match self {
            BasicTypeEnum::VectorType(t) => t,
            _ => vstd::pervasive::unreached(),
        }
    }

    pub fn is_int_type(&self) -> (is: bool)
        ensures
            is == (self is IntType),
    {
        match self {
            BasicTypeEnum::IntType(_) => true,
            _ => false,
        }
    }

    pub fn is_float_type(&self) -> (is: bool)
        ensures
            is == (self is FloatType),
    {
        match self {
            BasicTypeEnum::FloatType(_) => true,
            _ => false,
        }
    }

    pub fn is_pointer_type(&self) -> (is: bool)
        ensures
            is == (self is PointerType),
    {
        match self {
            BasicTypeEnum::PointerType(_) => true,
            _ => false,
        }
    }

    pub fn is_struct_type(&self) -> (is: bool)
        ensures
            is == (self is StructType),
    {
        match self {
            BasicTypeEnum::StructType(_) => true,
            _ => false,
        }
    }

    pub fn is_array_type(&self) -> (is: bool)
        ensures
            is == (self is ArrayType),
    {
        match self {
            BasicTypeEnum::ArrayType(_) => true,
            _ => false,
        }
    }

    pub fn is_vector_type(&self) -> (is: bool)
        ensures
            is == (self is VectorType),
    {
        match self {
            BasicTypeEnum::VectorType(_) => true,
            _ => false,
        }
    }
}

impl From<IntType> for AnyTypeEnum {
    fn from(value: IntType) -> (wrapped: AnyTypeEnum) {
        AnyTypeEnum::IntType(value)
    }
}

impl vstd::std_specs::convert::FromSpecImpl<IntType> for AnyTypeEnum {
    open spec fn obeys_from_spec() -> bool {
        true
    }

    open spec fn from_spec(value: IntType) -> AnyTypeEnum {
        AnyTypeEnum::IntType(value)
    }
}

impl From<FunctionType> for AnyTypeEnum {
    fn from(value: FunctionType) -> (wrapped: AnyTypeEnum) {
        AnyTypeEnum::FunctionType(value)
    }
}

impl vstd::std_specs::convert::FromSpecImpl<FunctionType> for AnyTypeEnum {
    open spec fn obeys_from_spec() -> bool {
        true
    }

    open spec fn from_spec(value: FunctionType) -> AnyTypeEnum {
        AnyTypeEnum::FunctionType(value)
    }
}

impl From<FloatType> for AnyTypeEnum {
    fn from(value: FloatType) -> (wrapped: AnyTypeEnum) {
        AnyTypeEnum::FloatType(value)
    }
}

impl vstd::std_specs::convert::FromSpecImpl<FloatType> for AnyTypeEnum {
    open spec fn obeys_from_spec() -> bool {
        true
    }

    open spec fn from_spec(value: FloatType) -> AnyTypeEnum {
        AnyTypeEnum::FloatType(value)
    }
}

impl From<PointerType> for AnyTypeEnum {
    fn from(value: PointerType) -> (wrapped: AnyTypeEnum) {
        AnyTypeEnum::PointerType(value)
    }
}

impl vstd::std_specs::convert::FromSpecImpl<PointerType> for AnyTypeEnum {
    open spec fn obeys_from_spec() -> bool {
        true
    }

    open spec fn from_spec(value: PointerType) -> AnyTypeEnum {
        AnyTypeEnum::PointerType(value)
    }
}

impl From<StructType> for AnyTypeEnum {
    fn from(value: StructType) -> (wrapped: AnyTypeEnum) {
        AnyTypeEnum::StructType(value)
    }
}

impl vstd::std_specs::convert::FromSpecImpl<StructType> for AnyTypeEnum {
    open spec fn obeys_from_spec() -> bool {
        true
    }

    open spec fn from_spec(value: StructType) -> AnyTypeEnum {
        AnyTypeEnum::StructType(value)
    }
}

impl From<ArrayType> for AnyTypeEnum {
    fn from(value: ArrayType) -> (wrapped: AnyTypeEnum) {
        AnyTypeEnum::ArrayType(value)
    }
}

impl vstd::std_specs::convert::FromSpecImpl<ArrayType> for AnyTypeEnum {
    open spec fn obeys_from_spec() -> bool {
        true
    }

    open spec fn from_spec(value: ArrayType) -> AnyTypeEnum {
        AnyTypeEnum::ArrayType(value)
    }
}

impl From<VoidType> for AnyTypeEnum {
    fn from(value: VoidType) -> (wrapped: AnyTypeEnum) {
        AnyTypeEnum::VoidType(value)
    }
}

impl vstd::std_specs::convert::FromSpecImpl<VoidType> for AnyTypeEnum {
    open spec fn obeys_from_spec() -> bool {
        true
    }

    open spec fn from_spec(value: VoidType) -> AnyTypeEnum {
        AnyTypeEnum::VoidType(value)
    }
}

impl From<VectorType> for AnyTypeEnum {
    fn from(value: VectorType) -> (wrapped: AnyTypeEnum) {
        AnyTypeEnum::VectorType(value)
    }
}

impl vstd::std_specs::convert::FromSpecImpl<VectorType> for AnyTypeEnum {
    open spec fn obeys_from_spec() -> bool {
        true
    }

    open spec fn from_spec(value: VectorType) -> AnyTypeEnum {
        AnyTypeEnum::VectorType(value)
    }
}

impl From<IntType> for BasicTypeEnum {
    fn from(value: IntType) -> (wrapped: BasicTypeEnum) {
        BasicTypeEnum::IntType(value)
    }
}

impl vstd::std_specs::convert::FromSpecImpl<IntType> for BasicTypeEnum {
    open spec fn obeys_from_spec() -> bool {
        true
    }

    open spec fn from_spec(value: IntType) -> BasicTypeEnum {
        BasicTypeEnum::IntType(value)
    }
}

impl From<FloatType> for BasicTypeEnum {
    fn from(value: FloatType) -> (wrapped: BasicTypeEnum) {
        BasicTypeEnum::FloatType(value)
    }
}

impl vstd::std_specs::convert::FromSpecImpl<FloatType> for BasicTypeEnum {
    open spec fn obeys_from_spec() -> bool {
        true
    }

    open spec fn from_spec(value: FloatType) -> BasicTypeEnum {
        BasicTypeEnum::FloatType(value)
    }
}

impl From<PointerType> for BasicTypeEnum {
    fn from(value: PointerType) -> (wrapped: BasicTypeEnum) {
        BasicTypeEnum::PointerType(value)
    }
}

impl vstd::std_specs::convert::FromSpecImpl<PointerType> for BasicTypeEnum {
    open spec fn obeys_from_spec() -> bool {
        true
    }

    open spec fn from_spec(value: PointerType) -> BasicTypeEnum {
        BasicTypeEnum::PointerType(value)
    }
}

impl From<StructType> for BasicTypeEnum {
    fn from(value: StructType) -> (wrapped: BasicTypeEnum) {
        BasicTypeEnum::StructType(value)
    }
}

impl vstd::std_specs::convert::FromSpecImpl<StructType> for BasicTypeEnum {
    open spec fn obeys_from_spec() -> bool {
        true
    }

    open spec fn from_spec(value: StructType) -> BasicTypeEnum {
        BasicTypeEnum::StructType(value)
    }
}

impl From<ArrayType> for BasicTypeEnum {
    fn from(value: ArrayType) -> (wrapped: BasicTypeEnum) {
        BasicTypeEnum::ArrayType(value)
    }
}

impl vstd::std_specs::convert::FromSpecImpl<ArrayType> for BasicTypeEnum {
    open spec fn obeys_from_spec() -> bool {
        true
    }

    open spec fn from_spec(value: ArrayType) -> BasicTypeEnum {
        BasicTypeEnum::ArrayType(value)
    }
}

impl From<VectorType> for BasicTypeEnum {
    fn from(value: VectorType) -> (wrapped: BasicTypeEnum) {
        BasicTypeEnum::VectorType(value)
    }
}

impl vstd::std_specs::convert::FromSpecImpl<VectorType> for BasicTypeEnum {
    open spec fn obeys_from_spec() -> bool {
        true
    }

    open spec fn from_spec(value: VectorType) -> BasicTypeEnum {
        BasicTypeEnum::VectorType(value)
    }
}

} // verus!
