//! Op and conversion tests: each intrinsic lowers to a call of the LLVM
//! intrinsic overloaded on its operand type.

use pliron_llvm_intrinsics::ops::{UnaryFloatIntrinsic, UnaryFloatIntrinsicOp};
use pliron_llvm_intrinsics::to_llvm::{IrOp, LLVMIntrinsicsToLLVM, Rewrite};
use pliron_llvm_intrinsics::types::{
    FP32Type, FP64Type, LlvmType, VectorType, VectorTypeKind,
};

fn fp32() -> LlvmType {
    LlvmType::FP32(FP32Type)
}

fn fp64() -> LlvmType {
    LlvmType::FP64(FP64Type)
}

fn vec2_fp64() -> LlvmType {
    LlvmType::Vector(VectorType::new(VectorTypeKind::Fixed, 2, fp64()))
}

/// Verifies the op, runs the conversion on it, and returns the name and
/// function type of the intrinsic call it became.
fn lower(kind: UnaryFloatIntrinsic, ty: LlvmType) -> (String, LlvmType, Vec<LlvmType>, bool) {
    let op = UnaryFloatIntrinsicOp::new(kind, ty);
    assert!(op.verify().is_ok());
    let op = IrOp::UnaryFloatIntrinsic(op);
    let mut conversion = LLVMIntrinsicsToLLVM;
    assert!(conversion.can_convert_op(&op));
    match conversion.rewrite(&op) {
        Ok(Rewrite::CallIntrinsic(call)) => (
            call.name,
            call.func_type.result,
            call.func_type.args,
            call.func_type.variadic,
        ),
        Ok(Rewrite::OwnLowering) => panic!("an intrinsic op lowered itself"),
        Err(e) => panic!("{}", e.message()),
    }
}

/// Each use is overloaded on its own operand type: `fp64`, `fp32` and a
/// vector of two `fp64`.
fn check_overloads(kind: UnaryFloatIntrinsic, base: &str) {
    for (ty, suffix) in [(fp64(), "f64"), (fp32(), "f32"), (vec2_fp64(), "v2f64")] {
        let (name, result, args, variadic) = lower(kind, ty);
        assert_eq!(name, format!("llvm.{}.{}", base, suffix));
        let expected = match suffix {
            "f64" => fp64(),
            "f32" => fp32(),
            _ => vec2_fp64(),
        };
        assert_eq!(result, expected);
        assert_eq!(args, vec![expected]);
        assert!(!variadic);
    }
}

#[test]
fn test_fabs() {
    check_overloads(UnaryFloatIntrinsic::FAbs, "fabs");
}

#[test]
fn test_sqrt() {
    check_overloads(UnaryFloatIntrinsic::Sqrt, "sqrt");
}

#[test]
fn test_sin() {
    check_overloads(UnaryFloatIntrinsic::Sin, "sin");
}

#[test]
fn test_cos() {
    check_overloads(UnaryFloatIntrinsic::Cos, "cos");
}

#[test]
fn test_tan() {
    check_overloads(UnaryFloatIntrinsic::Tan, "tan");
}

#[test]
fn test_asin() {
    check_overloads(UnaryFloatIntrinsic::Asin, "asin");
}

#[test]
fn test_acos() {
    check_overloads(UnaryFloatIntrinsic::Acos, "acos");
}

#[test]
fn test_atan() {
    check_overloads(UnaryFloatIntrinsic::Atan, "atan");
}

#[test]
fn test_sinh() {
    check_overloads(UnaryFloatIntrinsic::Sinh, "sinh");
}

#[test]
fn test_cosh() {
    check_overloads(UnaryFloatIntrinsic::Cosh, "cosh");
}

#[test]
fn test_tanh() {
    check_overloads(UnaryFloatIntrinsic::Tanh, "tanh");
}

#[test]
fn test_exp() {
    check_overloads(UnaryFloatIntrinsic::Exp, "exp");
}

#[test]
fn test_exp2() {
    check_overloads(UnaryFloatIntrinsic::Exp2, "exp2");
}

#[test]
fn test_exp10() {
    check_overloads(UnaryFloatIntrinsic::Exp10, "exp10");
}

#[test]
fn test_log() {
    check_overloads(UnaryFloatIntrinsic::Log, "log");
}

#[test]
fn test_log2() {
    check_overloads(UnaryFloatIntrinsic::Log2, "log2");
}

#[test]
fn test_log10() {
    check_overloads(UnaryFloatIntrinsic::Log10, "log10");
}

#[test]
fn test_floor() {
    check_overloads(UnaryFloatIntrinsic::Floor, "floor");
}

#[test]
fn test_ceil() {
    check_overloads(UnaryFloatIntrinsic::Ceil, "ceil");
}

#[test]
fn test_trunc() {
    check_overloads(UnaryFloatIntrinsic::Trunc, "trunc");
}

#[test]
fn test_rint() {
    check_overloads(UnaryFloatIntrinsic::Rint, "rint");
}

#[test]
fn test_nearbyint() {
    check_overloads(UnaryFloatIntrinsic::NearbyInt, "nearbyint");
}

#[test]
fn test_round() {
    check_overloads(UnaryFloatIntrinsic::Round, "round");
}

#[test]
fn test_roundeven() {
    check_overloads(UnaryFloatIntrinsic::RoundEven, "roundeven");
}

#[test]
fn test_canonicalize() {
    check_overloads(UnaryFloatIntrinsic::Canonicalize, "canonicalize");
}

#[test]
fn test_all_intrinsics_lowering_snapshot() {
    let all_f32 = [
        (UnaryFloatIntrinsic::FAbs, "llvm.fabs.f32"),
        (UnaryFloatIntrinsic::Sqrt, "llvm.sqrt.f32"),
        (UnaryFloatIntrinsic::Sin, "llvm.sin.f32"),
        (UnaryFloatIntrinsic::Cos, "llvm.cos.f32"),
        (UnaryFloatIntrinsic::Tan, "llvm.tan.f32"),
        (UnaryFloatIntrinsic::Asin, "llvm.asin.f32"),
        (UnaryFloatIntrinsic::Acos, "llvm.acos.f32"),
        (UnaryFloatIntrinsic::Atan, "llvm.atan.f32"),
        (UnaryFloatIntrinsic::Sinh, "llvm.sinh.f32"),
        (UnaryFloatIntrinsic::Cosh, "llvm.cosh.f32"),
        (UnaryFloatIntrinsic::Tanh, "llvm.tanh.f32"),
        (UnaryFloatIntrinsic::Exp, "llvm.exp.f32"),
        (UnaryFloatIntrinsic::Exp2, "llvm.exp2.f32"),
        (UnaryFloatIntrinsic::Exp10, "llvm.exp10.f32"),
        (UnaryFloatIntrinsic::Log, "llvm.log.f32"),
        (UnaryFloatIntrinsic::Log2, "llvm.log2.f32"),
        (UnaryFloatIntrinsic::Log10, "llvm.log10.f32"),
        (UnaryFloatIntrinsic::Floor, "llvm.floor.f32"),
        (UnaryFloatIntrinsic::Ceil, "llvm.ceil.f32"),
        (UnaryFloatIntrinsic::Trunc, "llvm.trunc.f32"),
        (UnaryFloatIntrinsic::Rint, "llvm.rint.f32"),
        (UnaryFloatIntrinsic::NearbyInt, "llvm.nearbyint.f32"),
        (UnaryFloatIntrinsic::Round, "llvm.round.f32"),
        (UnaryFloatIntrinsic::RoundEven, "llvm.roundeven.f32"),
        (UnaryFloatIntrinsic::Canonicalize, "llvm.canonicalize.f32"),
    ];
    for (kind, expected) in all_f32 {
        let (name, result, args, variadic) = lower(kind, fp32());
        assert_eq!(name, expected);
        assert_eq!(result, fp32());
        assert_eq!(args, vec![fp32()]);
        assert!(!variadic);
    }

    let (name, result, args, _) = lower(UnaryFloatIntrinsic::Sqrt, fp64());
    assert_eq!(name, "llvm.sqrt.f64");
    assert_eq!(result, fp64());
    assert_eq!(args, vec![fp64()]);

    let (name, result, args, _) = lower(UnaryFloatIntrinsic::Sqrt, vec2_fp64());
    assert_eq!(name, "llvm.sqrt.v2f64");
    assert_eq!(result, vec2_fp64());
    assert_eq!(args, vec![vec2_fp64()]);
}
