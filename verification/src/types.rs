//! The LLVM types that the intrinsics read: what the verifier and the overload
//! mangling distinguish, held as plain values.

use vstd::prelude::*;

verus! {

/// An integer type of a given bit width (`builtin.integer`). Its signedness
/// plays no part in overload mangling and is not held.
#[derive(Clone, Copy, PartialEq, Eq, Debug)]
pub struct IntegerType {
    pub width: u32,
}

/// The 16-bit IEEE floating point type (`builtin.fp16`).
#[derive(Clone, Copy, PartialEq, Eq, Debug)]
pub struct FP16Type;

/// The 32-bit IEEE floating point type (`builtin.fp32`).
#[derive(Clone, Copy, PartialEq, Eq, Debug)]
pub struct FP32Type;

/// The 64-bit IEEE floating point type (`builtin.fp64`).
#[derive(Clone, Copy, PartialEq, Eq, Debug)]
pub struct FP64Type;

/// Whether a vector has a fixed number of elements or a multiple of it
/// that is known only at run time.
#[derive(PartialEq, Eq, Structural, Clone, Copy, Debug)]
pub enum VectorTypeKind {
    Fixed,
    Scalable,
}

/// A vector type (`llvm.vector`): `num_elements` values of type `elem`.
#[derive(PartialEq, Eq, Debug)]
pub struct VectorType {
    pub kind: VectorTypeKind,
    pub num_elements: u32,
    pub elem: Box<LlvmType>,
}

/// Any other type: how it prints, whether it is a floating point type (such
/// as `builtin.bf16`), and the overload suffix that its own implementation
/// of the mangling interface gives, where it implements it.
#[derive(PartialEq, Eq, Debug)]
pub struct OtherType {
    pub printed: String,
    pub is_float: bool,
    pub own_suffix: Option<String>,
}

/// A type that an intrinsic's operand can have.
#[derive(PartialEq, Eq, Debug)]
pub enum LlvmType {
    Integer(IntegerType),
    FP16(FP16Type),
    FP32(FP32Type),
    FP64(FP64Type),
    Vector(VectorType),
    Other(OtherType),
}

impl IntegerType {
    pub fn new(width: u32) -> (r: Self)
        ensures
            r.width == width,
    {
        IntegerType { width }
    }

    /// The bit width.
    pub fn width(&self) -> (r: u32)
        ensures
            r == self.width,
    {
        self.width
    }
}

impl VectorType {
    pub fn new(kind: VectorTypeKind, num_elements: u32, elem: LlvmType) -> (r: Self)
        ensures
            r.kind == kind,
            r.num_elements == num_elements,
            *r.elem == elem,
    {
        VectorType { kind, num_elements, elem: Box::new(elem) }
    }

    /// The element type.
    pub fn elem_type(&self) -> (r: &LlvmType)
        ensures
            *r == *self.elem,
    {
        &self.elem
    }

    /// The number of elements (of the minimum vector, when scalable).
    pub fn num_elements(&self) -> (r: u32)
        ensures
            r == self.num_elements,
    {
        self.num_elements
    }

    /// Whether this is a scalable vector type.
    pub fn is_scalable(&self) -> (r: bool)
        ensures
            r == (self.kind == VectorTypeKind::Scalable),
    {
        self.kind == VectorTypeKind::Scalable
    }
}

/// Whether `t` is made of integer, fp16, fp32, fp64 and vector types only:
/// the types whose overload suffix this library defines.
pub open spec fn is_builtin_type(t: LlvmType) -> bool
    decreases t,
{
    match t {
        LlvmType::Vector(v) => is_builtin_type(*v.elem),
        LlvmType::Other(_) => false,
        _ => true,
    }
}

impl LlvmType {
    /// A copy of this type.
    pub fn duplicate(&self) -> (r: Self)
        ensures
            r == *self,
        decreases self,
    {
        match self {
            LlvmType::Integer(i) => LlvmType::Integer(IntegerType { width: i.width }),
            LlvmType::FP16(_) => LlvmType::FP16(FP16Type),
            LlvmType::FP32(_) => LlvmType::FP32(FP32Type),
            LlvmType::FP64(_) => LlvmType::FP64(FP64Type),
            LlvmType::Vector(v) => {
                let elem = v.elem.duplicate();
                LlvmType::Vector(
                    VectorType { kind: v.kind, num_elements: v.num_elements, elem: Box::new(elem) },
                )
            },
            LlvmType::Other(o) => {
                let own_suffix = match &o.own_suffix {
                    Some(suffix) => Some(suffix.clone()),
                    None => None,
                };
                LlvmType::Other(OtherType { printed: o.printed.clone(), is_float: o.is_float, own_suffix })
            },
        }
    }
}

} // verus!
