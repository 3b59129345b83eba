//! Lowering of the intrinsics dialect to the LLVM dialect: each intrinsic
//! op becomes a call of the LLVM intrinsic `llvm.<name>.<overload suffix>`.

use vstd::prelude::*;

use crate::mangling::{
    lemma_mangling_injective, llvm_mangled_ty, mangle_outcome, mangled, MangleTypeError,
};
use crate::ops::{
    lemma_base_name_has_no_dot, lemma_base_name_injective, spec_base_name, UnaryFloatIntrinsic,
    UnaryFloatIntrinsicOp,
};
use crate::types::{is_builtin_type, LlvmType};
use crate::utils::float_or_vector_of_float;

verus! {

/// A function type: `result (args...)`, variadic or not.
#[derive(Debug)]
pub struct FuncType {
    pub result: LlvmType,
    pub args: Vec<LlvmType>,
    pub variadic: bool,
}

impl FuncType {
    /// The function type `result (args...)`.
    pub fn get(result: LlvmType, args: Vec<LlvmType>, variadic: bool) -> (r: Self)
        ensures
            r.result == result,
            r.args@ == args@,
            r.variadic == variadic,
    {
        FuncType { result, args, variadic }
    }
}

/// A call of an LLVM intrinsic by name, with the given function type. Its
/// argument is the operand of the op that it replaces.
#[derive(Debug)]
pub struct IntrinsicCall {
    pub name: String,
    pub func_type: FuncType,
}

/// The LLVM name of intrinsic `k` overloaded on the type whose suffix is
/// `suffix`: `llvm.<name>.<suffix>`.
pub open spec fn llvm_intrinsic_name(k: UnaryFloatIntrinsic, suffix: Seq<char>) -> Seq<char> {
    seq!['l', 'l', 'v', 'm', '.'] + spec_base_name(k) + seq!['.'] + suffix
}

/// The LLVM name that intrinsic `k` takes on an operand of type `t`, where
/// `t` has an overload suffix.
pub open spec fn spec_intrinsic_name(k: UnaryFloatIntrinsic, t: LlvmType) -> Option<Seq<char>> {
    match mangled(t) {
        Some(m) => Some(llvm_intrinsic_name(k, m)),
        None => None,
    }
}

/// `call` is the lowering of `op`: a call of the intrinsic's LLVM name,
/// overloaded on the operand type, of type `operand (operand)`.
pub open spec fn lowers_to(op: UnaryFloatIntrinsicOp, call: IntrinsicCall) -> bool {
    &&& spec_intrinsic_name(op.kind, op.operand_type) == Some(call.name@)
    &&& call.func_type.result == op.operand_type
    &&& call.func_type.args@ == seq![op.operand_type]
    &&& !call.func_type.variadic
}

/// Lowers an intrinsic op to a call of `llvm.<name>.<suffix>`, where the
/// suffix is that of the operand type; fails where the operand type has
/// no suffix, with the error of the mangling.
pub fn rewrite_unary_float_intrinsic(op: &UnaryFloatIntrinsicOp) -> (r: Result<
    IntrinsicCall,
    MangleTypeError,
>)
    ensures
        match r {
            Ok(call) => lowers_to(*op, call) && mangled(op.operand_type) is Some && call.name@
                == seq!['l', 'l', 'v', 'm', '.'] + spec_base_name(op.kind) + seq!['.'] + mangled(
                op.operand_type,
            ).unwrap(),
            Err(e) => mangle_outcome(op.operand_type) == Err::<Seq<char>, Seq<char>>(e@),
        },
{
    let arg_ty = op.operand_type();
    let suffix = match llvm_mangled_ty(arg_ty) {
        Ok(s) => s,
        Err(e) => {
            return Err(e);
        },
    };
    let mut name = String::from_str("llvm.");
    name.append(op.kind.base_name());
    name.append(".");
    name.append(suffix.as_str());
    proof {
        reveal_strlit("llvm.");
        reveal_strlit(".");
    }
    assert(name@ =~= llvm_intrinsic_name(op.kind, suffix@));
    let mut args: Vec<LlvmType> = Vec::new();
    args.push(arg_ty.duplicate());
    assert(args@ =~= seq![op.operand_type]);
    let func_type = FuncType::get(arg_ty.duplicate(), args, false);
    Ok(IntrinsicCall { name, func_type })
}

/// An op of another dialect, and whether it has a lowering of its own to
/// the LLVM dialect.
#[derive(Debug)]
pub struct ForeignOp {
    pub lowers_to_llvm: bool,
}

/// An op that a conversion meets.
#[derive(Debug)]
pub enum IrOp {
    UnaryFloatIntrinsic(UnaryFloatIntrinsicOp),
    Foreign(ForeignOp),
}

/// How a converted op is rewritten.
#[derive(Debug)]
pub enum Rewrite {
    /// Replace the op by this intrinsic call.
    CallIntrinsic(IntrinsicCall),
    /// The op lowers itself, by its own lowering to the LLVM dialect.
    OwnLowering,
}

/// Whether the conversion rewrites `op`: every op of this dialect, and any
/// other op that has a lowering to the LLVM dialect.
pub open spec fn spec_can_convert_op(op: IrOp) -> bool {
    match op {
        IrOp::UnaryFloatIntrinsic(_) => true,
        IrOp::Foreign(f) => f.lowers_to_llvm,
    }
}

/// The conversion that lowers every op of the intrinsics dialect to its
/// intrinsic call in the LLVM dialect.
#[derive(Debug)]
pub struct LLVMIntrinsicsToLLVM;

impl LLVMIntrinsicsToLLVM {
    /// Whether `op` is rewritten by this conversion.
    pub fn can_convert_op(&self, op: &IrOp) -> (r: bool)
        ensures
            r == spec_can_convert_op(*op),
            *op is UnaryFloatIntrinsic ==> r,
            *op matches IrOp::Foreign(f) ==> r == f.lowers_to_llvm,
    {
        match op {
            IrOp::UnaryFloatIntrinsic(_) => true,
            IrOp::Foreign(f) => f.lowers_to_llvm,
        }
    }

    /// The rewrite of an op that the conversion matched: an intrinsic op
    /// becomes its intrinsic call; another op lowers itself.
    pub fn rewrite(&mut self, op: &IrOp) -> (r: Result<Rewrite, MangleTypeError>)
        requires
            spec_can_convert_op(*op),
        ensures
            match *op {
                IrOp::UnaryFloatIntrinsic(i) => match r {
                    Ok(Rewrite::CallIntrinsic(call)) => lowers_to(i, call),
                    Ok(Rewrite::OwnLowering) => false,
                    Err(e) => mangle_outcome(i.operand_type) == Err::<Seq<char>, Seq<char>>(e@),
                },
                IrOp::Foreign(_) => r matches Ok(Rewrite::OwnLowering),
            },
    {
        match op {
            IrOp::UnaryFloatIntrinsic(i) => match rewrite_unary_float_intrinsic(i) {
                Ok(call) => Ok(Rewrite::CallIntrinsic(call)),
                Err(e) => Err(e),
            },
            IrOp::Foreign(_) => Ok(Rewrite::OwnLowering),
        }
    }
}

/// The element type of a vector, or the type itself.
pub open spec fn scalar_type(t: LlvmType) -> LlvmType {
    match t {
        LlvmType::Vector(v) => *v.elem,
        _ => t,
    }
}

/// An intrinsic op that verifies always lowers, unless its floating point
/// type (or that of its vector's elements) is of another dialect and has no
/// overload suffix.
pub proof fn lemma_verified_op_lowers(op: UnaryFloatIntrinsicOp)
    requires
        float_or_vector_of_float(op.operand_type),
        scalar_type(op.operand_type) matches LlvmType::Other(o) ==> o.own_suffix is Some,
    ensures
        spec_intrinsic_name(op.kind, op.operand_type) is Some,
{
    match op.operand_type {
        LlvmType::Vector(v) => {
            assert(mangle_outcome(*v.elem) is Ok);
        },
        _ => {},
    }
}

/// The LLVM name of a lowered intrinsic names both the intrinsic and the
/// operand type: distinct intrinsics, or distinct builtin operand types,
/// lower to calls of distinct LLVM intrinsics.
pub proof fn lemma_intrinsic_name_injective(
    k1: UnaryFloatIntrinsic,
    t1: LlvmType,
    k2: UnaryFloatIntrinsic,
    t2: LlvmType,
)
    requires
        is_builtin_type(t1),
        is_builtin_type(t2),
        spec_intrinsic_name(k1, t1) is Some,
        spec_intrinsic_name(k1, t1) == spec_intrinsic_name(k2, t2),
    ensures
        k1 == k2,
        t1 == t2,
{
    let m1 = mangled(t1).unwrap();
    let m2 = mangled(t2).unwrap();
    let b1 = spec_base_name(k1);
    let b2 = spec_base_name(k2);
    let l1: int = b1.len() as int;
    let l2: int = b2.len() as int;
    let n = llvm_intrinsic_name(k1, m1);
    assert(n == llvm_intrinsic_name(k2, m2));
    lemma_base_name_has_no_dot(k1);
    lemma_base_name_has_no_dot(k2);
    if l1 < l2 {
        assert(n[5 + l1] == '.');
        assert(n[5 + l1] == b2[l1]);
        assert(false);
    } else if l2 < l1 {
        assert(n[5 + l2] == '.');
        assert(n[5 + l2] == b1[l2]);
        assert(false);
    }
    assert(b1 =~= n.subrange(5, 5 + l1));
    assert(b2 =~= n.subrange(5, 5 + l2));
    lemma_base_name_injective(k1, k2);
    assert(m1 =~= n.skip(6 + l1));
    assert(m2 =~= n.skip(6 + l2));
    lemma_mangling_injective(t1, t2);
}

/// A lowering calls `llvm.<name>.<suffix>` of the operand type, with the
/// function type `operand (operand)`, not variadic.
pub proof fn lemma_lowering_shape(op: UnaryFloatIntrinsicOp, call: IntrinsicCall)
    requires
        lowers_to(op, call),
    ensures
        mangled(op.operand_type) is Some,
        call.name@ == seq!['l', 'l', 'v', 'm', '.'] + spec_base_name(op.kind) + seq!['.'] + mangled(
            op.operand_type,
        ).unwrap(),
        call.func_type.result == op.operand_type,
        call.func_type.args@.len() == 1,
        call.func_type.args@[0] == op.operand_type,
        !call.func_type.variadic,
{
}

/// Every intrinsic op is converted, whatever its intrinsic and operand
/// type; an op of another dialect is converted exactly when it lowers
/// itself.
pub proof fn lemma_conversion_matches(op: IrOp)
    ensures
        op is UnaryFloatIntrinsic ==> spec_can_convert_op(op),
        op matches IrOp::Foreign(f) ==> spec_can_convert_op(op) == f.lowers_to_llvm,
{
}

/// A lowered name is `llvm.`, the intrinsic's name, a dot, and the overload
/// suffix, in that order.
pub proof fn lemma_intrinsic_name_shape(k: UnaryFloatIntrinsic, suffix: Seq<char>)
    ensures
        llvm_intrinsic_name(k, suffix).len() == 6 + spec_base_name(k).len() + suffix.len(),
        llvm_intrinsic_name(k, suffix).subrange(0, 5) == seq!['l', 'l', 'v', 'm', '.'],
        llvm_intrinsic_name(k, suffix).subrange(5, 5 + spec_base_name(k).len() as int) == spec_base_name(k),
        llvm_intrinsic_name(k, suffix)[5 + spec_base_name(k).len() as int] == '.',
        llvm_intrinsic_name(k, suffix).skip(6 + spec_base_name(k).len() as int) == suffix,
{
    let n = llvm_intrinsic_name(k, suffix);
    let l: int = spec_base_name(k).len() as int;
    assert(n.subrange(0, 5) =~= seq!['l', 'l', 'v', 'm', '.']);
    assert(n.subrange(5, 5 + l) =~= spec_base_name(k));
    assert(n.skip(6 + l) =~= suffix);
}

} // verus!
