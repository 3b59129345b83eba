//! Type predicates shared by the intrinsics.

use vstd::prelude::*;

use crate::types::LlvmType;

verus! {

/// Whether `t` is a floating point type.
pub open spec fn is_float_type(t: LlvmType) -> bool {
    match t {
        LlvmType::FP16(_) | LlvmType::FP32(_) | LlvmType::FP64(_) => true,
        LlvmType::Other(o) => o.is_float,
        _ => false,
    }
}

/// Whether `t` is a floating point type or a vector whose elements are.
pub open spec fn float_or_vector_of_float(t: LlvmType) -> bool {
    match t {
        LlvmType::Vector(v) => is_float_type(*v.elem),
        _ => is_float_type(t),
    }
}

fn is_float(ty: &LlvmType) -> (r: bool)
    ensures
        r == is_float_type(*ty),
{
    match ty {
        LlvmType::FP16(_) | LlvmType::FP32(_) | LlvmType::FP64(_) => true,
        LlvmType::Other(o) => o.is_float,
        _ => false,
    }
}

/// Whether `ty` is a floating point type, or a vector of one.
pub fn is_float_or_vector_of_float(ty: &LlvmType) -> (r: bool)
    ensures
        r == float_or_vector_of_float(*ty),
{
    let ty = match ty {
        LlvmType::Vector(v) => v.elem_type(),
        _ => ty,
    };
    is_float(ty)
}

/// Which operand types the verifier accepts: fp16, fp32 and fp64 pass,
/// integers do not, a type of another dialect passes exactly when it is a
/// floating point type, and a vector passes exactly when its element type
/// does, unless that element type is itself a vector.
pub proof fn lemma_float_operands(t: LlvmType)
    ensures
        t is FP16 ==> float_or_vector_of_float(t),
        t is FP32 ==> float_or_vector_of_float(t),
        t is FP64 ==> float_or_vector_of_float(t),
        t is Integer ==> !float_or_vector_of_float(t),
        t matches LlvmType::Other(o) ==> float_or_vector_of_float(t) == o.is_float,
        t matches LlvmType::Vector(v) ==> (*v.elem is Vector ==> !float_or_vector_of_float(t)),
        t matches LlvmType::Vector(v) ==> (!(*v.elem is Vector) ==> float_or_vector_of_float(t)
            == float_or_vector_of_float(*v.elem)),
{
}

} // verus!
