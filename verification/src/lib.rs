//! LLVM intrinsics dialect: the verified core of the unary floating point
//! intrinsics, their verifier, the overload mangling of LLVM types, and the
//! lowering of each intrinsic to a call of `llvm.<name>.<overload>`.

pub mod decimal;
pub mod types;
pub mod mangling;
pub mod utils;
pub mod ops;
pub mod to_llvm;
