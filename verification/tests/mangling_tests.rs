//! Overload suffixes of types, and the error for types that have none.

use pliron_llvm_intrinsics::decimal::decimal_string;
use pliron_llvm_intrinsics::mangling::{llvm_mangled_ty, LlvmTypeToMangledOverload};
use pliron_llvm_intrinsics::types::{
    FP16Type, FP32Type, FP64Type, IntegerType, LlvmType, OtherType, VectorType, VectorTypeKind,
};

fn bf16() -> LlvmType {
    LlvmType::Other(OtherType { printed: "builtin.bf16".to_string(), is_float: true, own_suffix: None })
}

fn mangle(ty: LlvmType) -> String {
    llvm_mangled_ty(&ty).expect("type has an overload suffix")
}

#[test]
fn decimal_rendering() {
    assert_eq!(decimal_string(0), "0");
    assert_eq!(decimal_string(7), "7");
    assert_eq!(decimal_string(10), "10");
    assert_eq!(decimal_string(305), "305");
    assert_eq!(decimal_string(u32::MAX), "4294967295");
}

#[test]
fn scalar_suffixes() {
    assert_eq!(mangle(LlvmType::Integer(IntegerType::new(32))), "i32");
    assert_eq!(mangle(LlvmType::Integer(IntegerType::new(1))), "i1");
    assert_eq!(mangle(LlvmType::Integer(IntegerType::new(128))), "i128");
    assert_eq!(mangle(LlvmType::FP16(FP16Type)), "f16");
    assert_eq!(mangle(LlvmType::FP32(FP32Type)), "f32");
    assert_eq!(mangle(LlvmType::FP64(FP64Type)), "f64");
}

#[test]
fn vector_suffixes() {
    let fixed = VectorType::new(VectorTypeKind::Fixed, 2, LlvmType::FP64(FP64Type));
    assert_eq!(mangle(LlvmType::Vector(fixed)), "v2f64");
    let scalable = VectorType::new(VectorTypeKind::Scalable, 4, LlvmType::FP32(FP32Type));
    assert_eq!(mangle(LlvmType::Vector(scalable)), "nxv4f32");
    let ints = VectorType::new(VectorTypeKind::Fixed, 16, LlvmType::Integer(IntegerType::new(8)));
    assert_eq!(mangle(LlvmType::Vector(ints)), "v16i8");
}

#[test]
fn trait_impls_agree_with_mangling() {
    assert_eq!(IntegerType::new(64).to_mangled_string().unwrap(), "i64");
    assert_eq!(FP16Type.to_mangled_string().unwrap(), "f16");
    assert_eq!(FP32Type.to_mangled_string().unwrap(), "f32");
    assert_eq!(FP64Type.to_mangled_string().unwrap(), "f64");
    let v = VectorType::new(VectorTypeKind::Scalable, 8, LlvmType::FP16(FP16Type));
    assert_eq!(v.to_mangled_string().unwrap(), "nxv8f16");
    let bad = VectorType::new(VectorTypeKind::Fixed, 2, bf16());
    assert_eq!(bad.to_mangled_string().unwrap_err().ty(), "builtin.bf16");
}

#[test]
fn unsupported_type_is_an_error() {
    let err = llvm_mangled_ty(&bf16()).unwrap_err();
    assert_eq!(err.ty(), "builtin.bf16");
    assert_eq!(err.message(), "Unsupported mangled type: builtin.bf16");
}

#[test]
fn unsupported_element_names_the_element() {
    let v = VectorType::new(VectorTypeKind::Fixed, 4, bf16());
    let err = llvm_mangled_ty(&LlvmType::Vector(v)).unwrap_err();
    assert_eq!(err.message(), "Unsupported mangled type: builtin.bf16");
}

#[test]
fn distinct_types_have_distinct_suffixes() {
    let types = vec![
        LlvmType::Integer(IntegerType::new(16)),
        LlvmType::Integer(IntegerType::new(32)),
        LlvmType::FP16(FP16Type),
        LlvmType::FP32(FP32Type),
        LlvmType::FP64(FP64Type),
        LlvmType::Vector(VectorType::new(VectorTypeKind::Fixed, 2, LlvmType::FP32(FP32Type))),
        LlvmType::Vector(VectorType::new(VectorTypeKind::Scalable, 2, LlvmType::FP32(FP32Type))),
        LlvmType::Vector(VectorType::new(VectorTypeKind::Fixed, 23, LlvmType::FP32(FP32Type))),
        LlvmType::Vector(VectorType::new(VectorTypeKind::Fixed, 2, LlvmType::FP64(FP64Type))),
    ];
    let suffixes: Vec<String> = types.iter().map(|t| llvm_mangled_ty(t).unwrap()).collect();
    for i in 0..suffixes.len() {
        for j in 0..suffixes.len() {
            assert_eq!(i == j, suffixes[i] == suffixes[j]);
        }
    }
}

#[test]
fn type_accessors() {
    let v = VectorType::new(VectorTypeKind::Scalable, 3, LlvmType::Integer(IntegerType::new(7)));
    assert!(v.is_scalable());
    assert_eq!(v.num_elements(), 3);
    assert_eq!(v.elem_type(), &LlvmType::Integer(IntegerType::new(7)));
    assert_eq!(IntegerType::new(9).width(), 9);
    let t = LlvmType::Vector(v);
    assert_eq!(t.duplicate(), t);
}

/// A type of another dialect that implements the mangling interface itself.
fn foreign_with_suffix() -> LlvmType {
    LlvmType::Other(OtherType {
        printed: "mydialect.half".to_string(),
        is_float: true,
        own_suffix: Some("bf16".to_string()),
    })
}

#[test]
fn foreign_type_uses_its_own_suffix() {
    assert_eq!(mangle(foreign_with_suffix()), "bf16");
    let v = VectorType::new(VectorTypeKind::Fixed, 4, foreign_with_suffix());
    assert_eq!(mangle(LlvmType::Vector(v)), "v4bf16");
    assert_eq!(foreign_with_suffix().duplicate(), foreign_with_suffix());
}
