//! The verifier of the intrinsic ops, their names, and the conversion's
//! treatment of ops of other dialects.

use pliron_llvm_intrinsics::ops::{UnaryFloatIntrinsic, UnaryFloatIntrinsicOp, UnaryFloatIntrinsicVerifyErr};
use pliron_llvm_intrinsics::to_llvm::{
    rewrite_unary_float_intrinsic, ForeignOp, FuncType, IrOp, LLVMIntrinsicsToLLVM, Rewrite,
};
use pliron_llvm_intrinsics::types::{
    FP32Type, FP64Type, IntegerType, LlvmType, OtherType, VectorType, VectorTypeKind,
};
use pliron_llvm_intrinsics::utils::is_float_or_vector_of_float;

fn bf16() -> LlvmType {
    LlvmType::Other(OtherType { printed: "builtin.bf16".to_string(), is_float: true, own_suffix: None })
}

#[test]
fn names() {
    assert_eq!(UnaryFloatIntrinsic::Sqrt.base_name(), "sqrt");
    assert_eq!(UnaryFloatIntrinsic::NearbyInt.base_name(), "nearbyint");
    assert_eq!(UnaryFloatIntrinsic::RoundEven.op_name(), "llvm_intrinsics.roundeven");
    assert_eq!(UnaryFloatIntrinsic::FAbs.op_name(), "llvm_intrinsics.fabs");
}

#[test]
fn float_predicate() {
    assert!(is_float_or_vector_of_float(&LlvmType::FP32(FP32Type)));
    assert!(is_float_or_vector_of_float(&bf16()));
    assert!(!is_float_or_vector_of_float(&LlvmType::Integer(IntegerType::new(32))));
    let vf = VectorType::new(VectorTypeKind::Fixed, 4, LlvmType::FP64(FP64Type));
    assert!(is_float_or_vector_of_float(&LlvmType::Vector(vf)));
    let vi = VectorType::new(VectorTypeKind::Fixed, 4, LlvmType::Integer(IntegerType::new(8)));
    assert!(!is_float_or_vector_of_float(&LlvmType::Vector(vi)));
    let inner = VectorType::new(VectorTypeKind::Fixed, 2, LlvmType::FP32(FP32Type));
    let nested = VectorType::new(VectorTypeKind::Fixed, 2, LlvmType::Vector(inner));
    assert!(!is_float_or_vector_of_float(&LlvmType::Vector(nested)));
}

#[test]
fn verify_rejects_integer_operand() {
    let op = UnaryFloatIntrinsicOp::new(UnaryFloatIntrinsic::Sqrt, LlvmType::Integer(IntegerType::new(32)));
    let err = op.verify().unwrap_err();
    assert_eq!(err, UnaryFloatIntrinsicVerifyErr::OperandNotFloat("llvm_intrinsics.sqrt"));
    assert_eq!(err.message(), "Operand of llvm_intrinsics.sqrt must be a floating point type");
}

#[test]
fn verify_accepts_float_operands() {
    let op = UnaryFloatIntrinsicOp::new(UnaryFloatIntrinsic::Exp10, LlvmType::FP32(FP32Type));
    assert!(op.verify().is_ok());
    assert_eq!(op.result_type(), &LlvmType::FP32(FP32Type));
    assert_eq!(op.operand_type(), &LlvmType::FP32(FP32Type));
    let op = UnaryFloatIntrinsicOp::new(UnaryFloatIntrinsic::Floor, bf16());
    assert!(op.verify().is_ok());
}

#[test]
fn verified_bf16_op_does_not_lower() {
    let op = UnaryFloatIntrinsicOp::new(UnaryFloatIntrinsic::Floor, bf16());
    assert!(op.verify().is_ok());
    let err = rewrite_unary_float_intrinsic(&op).unwrap_err();
    assert_eq!(err.message(), "Unsupported mangled type: builtin.bf16");
}

#[test]
fn scalable_vector_lowering() {
    let ty = LlvmType::Vector(VectorType::new(VectorTypeKind::Scalable, 4, LlvmType::FP32(FP32Type)));
    let op = UnaryFloatIntrinsicOp::new(UnaryFloatIntrinsic::Ceil, ty.duplicate());
    let call = rewrite_unary_float_intrinsic(&op).unwrap();
    assert_eq!(call.name, "llvm.ceil.nxv4f32");
    assert_eq!(call.func_type.result, ty);
    assert_eq!(call.func_type.args, vec![ty]);
}

#[test]
fn foreign_ops() {
    let mut conversion = LLVMIntrinsicsToLLVM;
    let lowers = IrOp::Foreign(ForeignOp { lowers_to_llvm: true });
    assert!(conversion.can_convert_op(&lowers));
    assert!(matches!(conversion.rewrite(&lowers), Ok(Rewrite::OwnLowering)));
    let stays = IrOp::Foreign(ForeignOp { lowers_to_llvm: false });
    assert!(!conversion.can_convert_op(&stays));
}

#[test]
fn func_type_get() {
    let f = FuncType::get(LlvmType::FP64(FP64Type), vec![LlvmType::FP64(FP64Type)], false);
    assert_eq!(f.result, LlvmType::FP64(FP64Type));
    assert_eq!(f.args, vec![LlvmType::FP64(FP64Type)]);
    assert!(!f.variadic);
}

#[test]
fn foreign_float_with_suffix_lowers() {
    let ty = LlvmType::Other(OtherType {
        printed: "mydialect.half".to_string(),
        is_float: true,
        own_suffix: Some("bf16".to_string()),
    });
    let op = UnaryFloatIntrinsicOp::new(UnaryFloatIntrinsic::Floor, ty);
    assert!(op.verify().is_ok());
    let call = rewrite_unary_float_intrinsic(&op).unwrap();
    assert_eq!(call.name, "llvm.floor.bf16");
}
