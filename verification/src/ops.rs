//! The unary floating point intrinsics: their names, and the verifier of an
//! intrinsic applied to an operand.

use vstd::prelude::*;

use crate::types::LlvmType;
use crate::utils::{float_or_vector_of_float, is_float_or_vector_of_float};

verus! {

/// A unary LLVM intrinsic whose operand and result are a floating point
/// type, or a vector of one: `<fptype> @llvm.<name>(<fptype>)`.
#[derive(PartialEq, Eq, Structural, Clone, Copy, Debug)]
pub enum UnaryFloatIntrinsic {
    /// Absolute value. (`llvm.fabs`)
    FAbs,
    /// Square root. (`llvm.sqrt`)
    Sqrt,
    /// Sine. (`llvm.sin`)
    Sin,
    /// Cosine. (`llvm.cos`)
    Cos,
    /// Tangent. (`llvm.tan`)
    Tan,
    /// Arcsine. (`llvm.asin`)
    Asin,
    /// Arccosine. (`llvm.acos`)
    Acos,
    /// Arctangent. (`llvm.atan`)
    Atan,
    /// Hyperbolic sine. (`llvm.sinh`)
    Sinh,
    /// Hyperbolic cosine. (`llvm.cosh`)
    Cosh,
    /// Hyperbolic tangent. (`llvm.tanh`)
    Tanh,
    /// Base-e exponential. (`llvm.exp`)
    Exp,
    /// Base-2 exponential. (`llvm.exp2`)
    Exp2,
    /// Base-10 exponential. (`llvm.exp10`)
    Exp10,
    /// Base-e logarithm. (`llvm.log`)
    Log,
    /// Base-2 logarithm. (`llvm.log2`)
    Log2,
    /// Base-10 logarithm. (`llvm.log10`)
    Log10,
    /// Round towards negative infinity. (`llvm.floor`)
    Floor,
    /// Round towards positive infinity. (`llvm.ceil`)
    Ceil,
    /// Round towards zero. (`llvm.trunc`)
    Trunc,
    /// Round to an integer using the current rounding mode, raising `inexact`. (`llvm.rint`)
    Rint,
    /// Round to an integer using the current rounding mode, without raising `inexact`. (`llvm.nearbyint`)
    NearbyInt,
    /// Round to the nearest integer, with ties away from zero. (`llvm.round`)
    Round,
    /// Round to the nearest integer, with ties to even. (`llvm.roundeven`)
    RoundEven,
    /// Canonical IEEE-754 representation. (`llvm.canonicalize`)
    Canonicalize,
}

/// The name of the dialect, with the dot that joins it to an op's name.
pub open spec fn dialect_prefix() -> Seq<char> {
    seq!['l', 'l', 'v', 'm', '_', 'i', 'n', 't', 'r', 'i', 'n', 's', 'i', 'c', 's', '.']
}

/// The name of an intrinsic within the dialect, which is also the name
/// LLVM gives it after `llvm.`.
pub open spec fn spec_base_name(k: UnaryFloatIntrinsic) -> Seq<char> {
    match k {
        UnaryFloatIntrinsic::FAbs => seq!['f', 'a', 'b', 's'],
        UnaryFloatIntrinsic::Sqrt => seq!['s', 'q', 'r', 't'],
        UnaryFloatIntrinsic::Sin => seq!['s', 'i', 'n'],
        UnaryFloatIntrinsic::Cos => seq!['c', 'o', 's'],
        UnaryFloatIntrinsic::Tan => seq!['t', 'a', 'n'],
        UnaryFloatIntrinsic::Asin => seq!['a', 's', 'i', 'n'],
        UnaryFloatIntrinsic::Acos => seq!['a', 'c', 'o', 's'],
        UnaryFloatIntrinsic::Atan => seq!['a', 't', 'a', 'n'],
        UnaryFloatIntrinsic::Sinh => seq!['s', 'i', 'n', 'h'],
        UnaryFloatIntrinsic::Cosh => seq!['c', 'o', 's', 'h'],
        UnaryFloatIntrinsic::Tanh => seq!['t', 'a', 'n', 'h'],
        UnaryFloatIntrinsic::Exp => seq!['e', 'x', 'p'],
        UnaryFloatIntrinsic::Exp2 => seq!['e', 'x', 'p', '2'],
        UnaryFloatIntrinsic::Exp10 => seq!['e', 'x', 'p', '1', '0'],
        UnaryFloatIntrinsic::Log => seq!['l', 'o', 'g'],
        UnaryFloatIntrinsic::Log2 => seq!['l', 'o', 'g', '2'],
        UnaryFloatIntrinsic::Log10 => seq!['l', 'o', 'g', '1', '0'],
        UnaryFloatIntrinsic::Floor => seq!['f', 'l', 'o', 'o', 'r'],
        UnaryFloatIntrinsic::Ceil => seq!['c', 'e', 'i', 'l'],
        UnaryFloatIntrinsic::Trunc => seq!['t', 'r', 'u', 'n', 'c'],
        UnaryFloatIntrinsic::Rint => seq!['r', 'i', 'n', 't'],
        UnaryFloatIntrinsic::NearbyInt => seq!['n', 'e', 'a', 'r', 'b', 'y', 'i', 'n', 't'],
        UnaryFloatIntrinsic::Round => seq!['r', 'o', 'u', 'n', 'd'],
        UnaryFloatIntrinsic::RoundEven => seq!['r', 'o', 'u', 'n', 'd', 'e', 'v', 'e', 'n'],
        UnaryFloatIntrinsic::Canonicalize => seq!['c', 'a', 'n', 'o', 'n', 'i', 'c', 'a', 'l', 'i', 'z', 'e'],
    }
}

/// The full name of an intrinsic's op: `llvm_intrinsics.<name>`.
pub open spec fn spec_op_name(k: UnaryFloatIntrinsic) -> Seq<char> {
    dialect_prefix() + spec_base_name(k)
}

impl UnaryFloatIntrinsic {
    /// The intrinsic's name within the dialect, such as `sqrt`.
    pub fn base_name(&self) -> (r: &'static str)
        ensures
            r@ == spec_base_name(*self),
    {
        match self {
            UnaryFloatIntrinsic::FAbs => {
                proof {
                    reveal_strlit("fabs");
                }
                "fabs"
            },
            UnaryFloatIntrinsic::Sqrt => {
                proof {
                    reveal_strlit("sqrt");
                }
                "sqrt"
            },
            UnaryFloatIntrinsic::Sin => {
                proof {
                    reveal_strlit("sin");
                }
                "sin"
            },
            UnaryFloatIntrinsic::Cos => {
                proof {
                    reveal_strlit("cos");
                }
                "cos"
            },
            UnaryFloatIntrinsic::Tan => {
                proof {
                    reveal_strlit("tan");
                }
                "tan"
            },
            UnaryFloatIntrinsic::Asin => {
                proof {
                    reveal_strlit("asin");
                }
                "asin"
            },
            UnaryFloatIntrinsic::Acos => {
                proof {
                    reveal_strlit("acos");
                }
                "acos"
            },
            UnaryFloatIntrinsic::Atan => {
                proof {
                    reveal_strlit("atan");
                }
                "atan"
            },
            UnaryFloatIntrinsic::Sinh => {
                proof {
                    reveal_strlit("sinh");
                }
                "sinh"
            },
            UnaryFloatIntrinsic::Cosh => {
                proof {
                    reveal_strlit("cosh");
                }
                "cosh"
            },
            UnaryFloatIntrinsic::Tanh => {
                proof {
                    reveal_strlit("tanh");
                }
                "tanh"
            },
            UnaryFloatIntrinsic::Exp => {
                proof {
                    reveal_strlit("exp");
                }
                "exp"
            },
            UnaryFloatIntrinsic::Exp2 => {
                proof {
                    reveal_strlit("exp2");
                }
                "exp2"
            },
            UnaryFloatIntrinsic::Exp10 => {
                proof {
                    reveal_strlit("exp10");
                }
                "exp10"
            },
            UnaryFloatIntrinsic::Log => {
                proof {
                    reveal_strlit("log");
                }
                "log"
            },
            UnaryFloatIntrinsic::Log2 => {
                proof {
                    reveal_strlit("log2");
                }
                "log2"
            },
            UnaryFloatIntrinsic::Log10 => {
                proof {
                    reveal_strlit("log10");
                }
                "log10"
            },
            UnaryFloatIntrinsic::Floor => {
                proof {
                    reveal_strlit("floor");
                }
                "floor"
            },
            UnaryFloatIntrinsic::Ceil => {
                proof {
                    reveal_strlit("ceil");
                }
                "ceil"
            },
            UnaryFloatIntrinsic::Trunc => {
                proof {
                    reveal_strlit("trunc");
                }
                "trunc"
            },
            UnaryFloatIntrinsic::Rint => {
                proof {
                    reveal_strlit("rint");
                }
                "rint"
            },
            UnaryFloatIntrinsic::NearbyInt => {
                proof {
                    reveal_strlit("nearbyint");
                }
                "nearbyint"
            },
            UnaryFloatIntrinsic::Round => {
                proof {
                    reveal_strlit("round");
                }
                "round"
            },
            UnaryFloatIntrinsic::RoundEven => {
                proof {
                    reveal_strlit("roundeven");
                }
                "roundeven"
            },
            UnaryFloatIntrinsic::Canonicalize => {
                proof {
                    reveal_strlit("canonicalize");
                }
                "canonicalize"
            },
        }
    }

    /// The intrinsic's op name, such as `llvm_intrinsics.sqrt`.
    pub fn op_name(&self) -> (r: &'static str)
        ensures
            r@ == spec_op_name(*self),
            r@ == seq!['l', 'l', 'v', 'm', '_', 'i', 'n', 't', 'r', 'i', 'n', 's', 'i', 'c', 's', '.'] + spec_base_name(*self),
    {
        match self {
            UnaryFloatIntrinsic::FAbs => {
                proof {
                    reveal_strlit("llvm_intrinsics.fabs");
                }
                "llvm_intrinsics.fabs"
            },
            UnaryFloatIntrinsic::Sqrt => {
                proof {
                    reveal_strlit("llvm_intrinsics.sqrt");
                }
                "llvm_intrinsics.sqrt"
            },
            UnaryFloatIntrinsic::Sin => {
                proof {
                    reveal_strlit("llvm_intrinsics.sin");
                }
                "llvm_intrinsics.sin"
            },
            UnaryFloatIntrinsic::Cos => {
                proof {
                    reveal_strlit("llvm_intrinsics.cos");
                }
                "llvm_intrinsics.cos"
            },
            UnaryFloatIntrinsic::Tan => {
                proof {
                    reveal_strlit("llvm_intrinsics.tan");
                }
                "llvm_intrinsics.tan"
            },
            UnaryFloatIntrinsic::Asin => {
                proof {
                    reveal_strlit("llvm_intrinsics.asin");
                }
                "llvm_intrinsics.asin"
            },
            UnaryFloatIntrinsic::Acos => {
                proof {
                    reveal_strlit("llvm_intrinsics.acos");
                }
                "llvm_intrinsics.acos"
            },
            UnaryFloatIntrinsic::Atan => {
                proof {
                    reveal_strlit("llvm_intrinsics.atan");
                }
                "llvm_intrinsics.atan"
            },
            UnaryFloatIntrinsic::Sinh => {
                proof {
                    reveal_strlit("llvm_intrinsics.sinh");
                }
                "llvm_intrinsics.sinh"
            },
            UnaryFloatIntrinsic::Cosh => {
                proof {
                    reveal_strlit("llvm_intrinsics.cosh");
                }
                "llvm_intrinsics.cosh"
            },
            UnaryFloatIntrinsic::Tanh => {
                proof {
                    reveal_strlit("llvm_intrinsics.tanh");
                }
                "llvm_intrinsics.tanh"
            },
            UnaryFloatIntrinsic::Exp => {
                proof {
                    reveal_strlit("llvm_intrinsics.exp");
                }
                "llvm_intrinsics.exp"
            },
            UnaryFloatIntrinsic::Exp2 => {
                proof {
                    reveal_strlit("llvm_intrinsics.exp2");
                }
                "llvm_intrinsics.exp2"
            },
            UnaryFloatIntrinsic::Exp10 => {
                proof {
                    reveal_strlit("llvm_intrinsics.exp10");
                }
                "llvm_intrinsics.exp10"
            },
            UnaryFloatIntrinsic::Log => {
                proof {
                    reveal_strlit("llvm_intrinsics.log");
                }
                "llvm_intrinsics.log"
            },
            UnaryFloatIntrinsic::Log2 => {
                proof {
                    reveal_strlit("llvm_intrinsics.log2");
                }
                "llvm_intrinsics.log2"
            },
            UnaryFloatIntrinsic::Log10 => {
                proof {
                    reveal_strlit("llvm_intrinsics.log10");
                }
                "llvm_intrinsics.log10"
            },
            UnaryFloatIntrinsic::Floor => {
                proof {
                    reveal_strlit("llvm_intrinsics.floor");
                }
                "llvm_intrinsics.floor"
            },
            UnaryFloatIntrinsic::Ceil => {
                proof {
                    reveal_strlit("llvm_intrinsics.ceil");
                }
                "llvm_intrinsics.ceil"
            },
            UnaryFloatIntrinsic::Trunc => {
                proof {
                    reveal_strlit("llvm_intrinsics.trunc");
                }
                "llvm_intrinsics.trunc"
            },
            UnaryFloatIntrinsic::Rint => {
                proof {
                    reveal_strlit("llvm_intrinsics.rint");
                }
                "llvm_intrinsics.rint"
            },
            UnaryFloatIntrinsic::NearbyInt => {
                proof {
                    reveal_strlit("llvm_intrinsics.nearbyint");
                }
                "llvm_intrinsics.nearbyint"
            },
            UnaryFloatIntrinsic::Round => {
                proof {
                    reveal_strlit("llvm_intrinsics.round");
                }
                "llvm_intrinsics.round"
            },
            UnaryFloatIntrinsic::RoundEven => {
                proof {
                    reveal_strlit("llvm_intrinsics.roundeven");
                }
                "llvm_intrinsics.roundeven"
            },
            UnaryFloatIntrinsic::Canonicalize => {
                proof {
                    reveal_strlit("llvm_intrinsics.canonicalize");
                }
                "llvm_intrinsics.canonicalize"
            },
        }
    }
}

/// Why an intrinsic op fails to verify.
#[derive(Debug, PartialEq, Eq)]
pub enum UnaryFloatIntrinsicVerifyErr {
    /// The operand of the named op is not a floating point type, nor a
    /// vector of one.
    OperandNotFloat(&'static str),
}

impl UnaryFloatIntrinsicVerifyErr {
    /// The error's message: `Operand of <op> must be a floating point type`.
    pub fn message(&self) -> (r: String)
        ensures
            match self {
                UnaryFloatIntrinsicVerifyErr::OperandNotFloat(op) => r@ == "Operand of "@ + op@
                    + " must be a floating point type"@,
            },
    {
        match self {
            UnaryFloatIntrinsicVerifyErr::OperandNotFloat(op) => {
                let mut r = String::from_str("Operand of ");
                r.append(op);
                r.append(" must be a floating point type");
                r
            },
        }
    }
}

/// An intrinsic applied to an operand of type `operand_type`. Its result
/// has the operand's type.
#[derive(Debug)]
pub struct UnaryFloatIntrinsicOp {
    pub kind: UnaryFloatIntrinsic,
    pub operand_type: LlvmType,
}

impl UnaryFloatIntrinsicOp {
    /// The intrinsic `kind` applied to an operand of type `arg_type`.
    pub fn new(kind: UnaryFloatIntrinsic, arg_type: LlvmType) -> (r: Self)
        ensures
            r.kind == kind,
            r.operand_type == arg_type,
    {
        UnaryFloatIntrinsicOp { kind, operand_type: arg_type }
    }

    /// The type of the operand.
    pub fn operand_type(&self) -> (r: &LlvmType)
        ensures
            *r == self.operand_type,
    {
        &self.operand_type
    }

    /// The type of the result, which is that of the operand.
    pub fn result_type(&self) -> (r: &LlvmType)
        ensures
            *r == self.operand_type,
    {
        &self.operand_type
    }

    /// Checks that the operand is a floating point type, or a vector of
    /// one; the error names the op otherwise.
    pub fn verify(&self) -> (r: Result<(), UnaryFloatIntrinsicVerifyErr>)
        ensures
            r is Ok <==> float_or_vector_of_float(self.operand_type),
            r matches Err(UnaryFloatIntrinsicVerifyErr::OperandNotFloat(op)) ==> op@ == spec_op_name(
                self.kind,
            ),
    {
        if !is_float_or_vector_of_float(&self.operand_type) {
            return Err(UnaryFloatIntrinsicVerifyErr::OperandNotFloat(self.kind.op_name()));
        }
        Ok(())
    }
}

/// The names within the dialect contain no dot.
pub proof fn lemma_base_name_has_no_dot(k: UnaryFloatIntrinsic)
    ensures
        forall|i: int| 0 <= i < spec_base_name(k).len() ==> spec_base_name(k)[i] != '.',
        spec_base_name(k).len() > 0,
{
}

/// The intrinsic whose name is `s`, where there is one.
pub open spec fn intrinsic_named(s: Seq<char>) -> Option<UnaryFloatIntrinsic> {
    if s.len() == 4 && s[0] == 'f' && s[1] == 'a' && s[2] == 'b' && s[3] == 's' {
        Some(UnaryFloatIntrinsic::FAbs)
    } else if s.len() == 4 && s[0] == 's' && s[1] == 'q' && s[2] == 'r' && s[3] == 't' {
        Some(UnaryFloatIntrinsic::Sqrt)
    } else if s.len() == 3 && s[0] == 's' && s[1] == 'i' && s[2] == 'n' {
        Some(UnaryFloatIntrinsic::Sin)
    } else if s.len() == 3 && s[0] == 'c' && s[1] == 'o' && s[2] == 's' {
        Some(UnaryFloatIntrinsic::Cos)
    } else if s.len() == 3 && s[0] == 't' && s[1] == 'a' && s[2] == 'n' {
        Some(UnaryFloatIntrinsic::Tan)
    } else if s.len() == 4 && s[0] == 'a' && s[1] == 's' && s[2] == 'i' && s[3] == 'n' {
        Some(UnaryFloatIntrinsic::Asin)
    } else if s.len() == 4 && s[0] == 'a' && s[1] == 'c' && s[2] == 'o' && s[3] == 's' {
        Some(UnaryFloatIntrinsic::Acos)
    } else if s.len() == 4 && s[0] == 'a' && s[1] == 't' && s[2] == 'a' && s[3] == 'n' {
        Some(UnaryFloatIntrinsic::Atan)
    } else if s.len() == 4 && s[0] == 's' && s[1] == 'i' && s[2] == 'n' && s[3] == 'h' {
        Some(UnaryFloatIntrinsic::Sinh)
    } else if s.len() == 4 && s[0] == 'c' && s[1] == 'o' && s[2] == 's' && s[3] == 'h' {
        Some(UnaryFloatIntrinsic::Cosh)
    } else if s.len() == 4 && s[0] == 't' && s[1] == 'a' && s[2] == 'n' && s[3] == 'h' {
        Some(UnaryFloatIntrinsic::Tanh)
    } else if s.len() == 3 && s[0] == 'e' && s[1] == 'x' && s[2] == 'p' {
        Some(UnaryFloatIntrinsic::Exp)
    } else if s.len() == 4 && s[0] == 'e' && s[1] == 'x' && s[2] == 'p' && s[3] == '2' {
        Some(UnaryFloatIntrinsic::Exp2)
    } else if s.len() == 5 && s[0] == 'e' && s[1] == 'x' && s[2] == 'p' && s[3] == '1' && s[4] == '0' {
        Some(UnaryFloatIntrinsic::Exp10)
    } else if s.len() == 3 && s[0] == 'l' && s[1] == 'o' && s[2] == 'g' {
        Some(UnaryFloatIntrinsic::Log)
    } else if s.len() == 4 && s[0] == 'l' && s[1] == 'o' && s[2] == 'g' && s[3] == '2' {
        Some(UnaryFloatIntrinsic::Log2)
    } else if s.len() == 5 && s[0] == 'l' && s[1] == 'o' && s[2] == 'g' && s[3] == '1' && s[4] == '0' {
        Some(UnaryFloatIntrinsic::Log10)
    } else if s.len() == 5 && s[0] == 'f' && s[1] == 'l' && s[2] == 'o' && s[3] == 'o' && s[4] == 'r' {
        Some(UnaryFloatIntrinsic::Floor)
    } else if s.len() == 4 && s[0] == 'c' && s[1] == 'e' && s[2] == 'i' && s[3] == 'l' {
        Some(UnaryFloatIntrinsic::Ceil)
    } else if s.len() == 5 && s[0] == 't' && s[1] == 'r' && s[2] == 'u' && s[3] == 'n' && s[4] == 'c' {
        Some(UnaryFloatIntrinsic::Trunc)
    } else if s.len() == 4 && s[0] == 'r' && s[1] == 'i' && s[2] == 'n' && s[3] == 't' {
        Some(UnaryFloatIntrinsic::Rint)
    } else if s.len() == 9 && s[0] == 'n' && s[1] == 'e' && s[2] == 'a' && s[3] == 'r' && s[4] == 'b' && s[5] == 'y' && s[6] == 'i' && s[7] == 'n' && s[8] == 't' {
        Some(UnaryFloatIntrinsic::NearbyInt)
    } else if s.len() == 5 && s[0] == 'r' && s[1] == 'o' && s[2] == 'u' && s[3] == 'n' && s[4] == 'd' {
        Some(UnaryFloatIntrinsic::Round)
    } else if s.len() == 9 && s[0] == 'r' && s[1] == 'o' && s[2] == 'u' && s[3] == 'n' && s[4] == 'd' && s[5] == 'e' && s[6] == 'v' && s[7] == 'e' && s[8] == 'n' {
        Some(UnaryFloatIntrinsic::RoundEven)
    } else if s.len() == 12 && s[0] == 'c' && s[1] == 'a' && s[2] == 'n' && s[3] == 'o' && s[4] == 'n' && s[5] == 'i' && s[6] == 'c' && s[7] == 'a' && s[8] == 'l' && s[9] == 'i' && s[10] == 'z' && s[11] == 'e' {
        Some(UnaryFloatIntrinsic::Canonicalize)
    } else {
        None
    }
}

/// Each intrinsic's name reads back as that intrinsic.
pub proof fn lemma_intrinsic_named(k: UnaryFloatIntrinsic)
    ensures
        intrinsic_named(spec_base_name(k)) == Some(k),
{
}

/// Distinct intrinsics have distinct names.
pub proof fn lemma_base_name_injective(a: UnaryFloatIntrinsic, b: UnaryFloatIntrinsic)
    requires
        spec_base_name(a) == spec_base_name(b),
    ensures
        a == b,
{
    lemma_intrinsic_named(a);
    lemma_intrinsic_named(b);
}

/// An op's name is `llvm_intrinsics.` followed by the intrinsic's name.
pub proof fn lemma_op_name_shape(k: UnaryFloatIntrinsic)
    ensures
        spec_op_name(k) == seq!['l', 'l', 'v', 'm', '_', 'i', 'n', 't', 'r', 'i', 'n', 's', 'i', 'c', 's', '.'] + spec_base_name(k),
        spec_op_name(k).subrange(0, 16) == seq!['l', 'l', 'v', 'm', '_', 'i', 'n', 't', 'r', 'i', 'n', 's', 'i', 'c', 's', '.'],
        spec_op_name(k).skip(16) == spec_base_name(k),
{
    assert(spec_op_name(k).subrange(0, 16) =~= seq!['l', 'l', 'v', 'm', '_', 'i', 'n', 't', 'r', 'i', 'n', 's', 'i', 'c', 's', '.']);
    assert(spec_op_name(k).skip(16) =~= spec_base_name(k));
}

/// Distinct intrinsics have distinct op names.
pub proof fn lemma_op_name_injective(a: UnaryFloatIntrinsic, b: UnaryFloatIntrinsic)
    requires
        spec_op_name(a) == spec_op_name(b),
    ensures
        a == b,
{
    lemma_op_name_shape(a);
    lemma_op_name_shape(b);
    lemma_base_name_injective(a, b);
}

} // verus!
