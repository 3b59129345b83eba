# pliron-llvm-intrinsics

An LLVM intrinsics dialect for pliron: strongly typed ops for the unary
floating point intrinsics (`fabs`, `sqrt`, `sin`, ..., `canonicalize`), each
of which lowers to `llvm.call_intrinsic` of `llvm.<name>.<overload>`, where the
overload suffix names the operand type (`f32`, `v2f64`, `nxv4f32`, ...).

Layout:

- `src/` is the verified library. It holds the intrinsics and their names,
  the op verifier, the overload mangling of types, and the lowering, over
  plain models of the types and ops; their contracts, and the laws that tie
  them together (distinct types mangle differently, each lowered name
  determines the intrinsic and its operand type, verified ops on the builtin
  float types always lower), are proved by Verus.
- `app/` reads pliron IR into those models, defines the pliron ops and the
  dialect conversion, and builds the IR that the library's answers describe.
- `tests/` runs the library on the lowering examples of the dialect.
